use bindgen_ir::clang;
use bindgen_ir::comp::CompInfo;
use bindgen_ir::context::{BuildContext, TypeResult};
use bindgen_ir::int_kind::IntKind;
use bindgen_ir::layout::Layout;
use bindgen_ir::parse::ParseError;
use bindgen_ir::ty::{Type, TypeKind};

fn int_builtin(ctx: &mut BuildContext, uid: u64) -> bindgen_ir::item::ItemId {
    ctx.register_builtin(uid, Type::new(None, None, TypeKind::Int(IntKind::Int)))
}

fn desc(uid: u64, decl: u64, kind: clang::TypeKind) -> clang::Type {
    clang::Type::new(uid, decl, None, kind)
}

#[test]
fn pointer_ingests_through_its_pointee() {
    let mut ctx = BuildContext::new();
    let int_id = int_builtin(&mut ctx, 1);
    let ptr = desc(2, 0, clang::TypeKind::Pointer(Box::new(desc(1, 0, clang::TypeKind::Other))));
    let ptr_id = ctx.from_ty(&ptr).unwrap();
    let resolver = ctx.type_resolver();
    match resolver.resolve_type(ptr_id).kind {
        TypeKind::Pointer(inner) => assert_eq!(inner, int_id),
        _ => panic!("expected a pointer"),
    }
}

#[test]
fn ingesting_twice_yields_the_same_id() {
    let mut ctx = BuildContext::new();
    int_builtin(&mut ctx, 1);
    let ptr = desc(2, 0, clang::TypeKind::Pointer(Box::new(desc(1, 0, clang::TypeKind::Other))));
    let first = ctx.from_ty(&ptr).unwrap();
    let len_after_first = ctx.type_resolver().len();
    let second = ctx.from_ty(&ptr).unwrap();
    assert_eq!(first, second);
    assert_eq!(ctx.type_resolver().len(), len_after_first);
}

#[test]
fn self_referential_pointer_ingests_and_analyzes() {
    let mut ctx = BuildContext::new();
    // The walker has resolved `struct Node` (declaration handle 10) and is
    // now ingesting the type of its `next` field: a pointer back to itself.
    let node_id = ctx.register_decl(
        10,
        Type::new(
            Some("Node".to_string()),
            None,
            TypeKind::Comp(CompInfo::new(None, true, true, false)),
        ),
    );
    let ptr = desc(5, 0, clang::TypeKind::Pointer(Box::new(desc(6, 10, clang::TypeKind::Record))));
    let ptr_id = ctx.from_ty(&ptr).unwrap();
    let resolver = ctx.type_resolver();
    match resolver.resolve_type(ptr_id).kind {
        TypeKind::Pointer(inner) => assert_eq!(inner, node_id),
        _ => panic!("expected a pointer"),
    }
    let t = resolver.resolve_type(ptr_id);
    assert!(t.can_derive_copy(resolver));
    assert!(!t.has_destructor(resolver));
}

#[test]
fn elaborated_resolves_like_the_named_type() {
    let mut ctx = BuildContext::new();
    let foo_id = ctx.register_decl(
        10,
        Type::new(
            Some("Foo".to_string()),
            None,
            TypeKind::Comp(CompInfo::new(None, true, true, false)),
        ),
    );
    let bare = desc(6, 10, clang::TypeKind::Record);
    let elaborated = desc(
        7,
        10,
        clang::TypeKind::Elaborated(Box::new(desc(6, 10, clang::TypeKind::Record))),
    );
    let via_sugar = ctx.from_ty(&elaborated).unwrap();
    let via_name = ctx.from_ty(&bare).unwrap();
    assert_eq!(via_sugar, foo_id);
    assert_eq!(via_name, foo_id);
}

#[test]
fn unsupported_kind_skips_without_touching_the_registry() {
    let mut ctx = BuildContext::new();
    let before = ctx.type_resolver().len();
    let exotic = desc(9, 0, clang::TypeKind::Other);
    assert_eq!(ctx.from_ty(&exotic), Err(ParseError::Continue));
    assert_eq!(ctx.type_resolver().len(), before);
}

#[test]
fn invalid_type_is_fatal() {
    let mut ctx = BuildContext::new();
    let bad = desc(9, 0, clang::TypeKind::Invalid);
    assert_eq!(ctx.from_ty(&bad), Err(ParseError::Invalid));
}

#[test]
fn declaration_carriers_ask_to_recurse() {
    let mut ctx = BuildContext::new();
    for kind in [
        clang::TypeKind::Record,
        clang::TypeKind::Typedef,
        clang::TypeKind::Unexposed,
        clang::TypeKind::Enum,
    ] {
        // Declaration handle 99 was never resolved by the walker.
        let carrier = desc(9, 99, kind);
        assert_eq!(ctx.from_ty(&carrier), Err(ParseError::Recurse));
    }
}

#[test]
fn unresolvable_pointee_is_fatal_and_leaves_the_registry() {
    let mut ctx = BuildContext::new();
    let before = ctx.type_resolver().len();
    let ptr = desc(2, 0, clang::TypeKind::Pointer(Box::new(desc(3, 0, clang::TypeKind::Other))));
    assert_eq!(ctx.from_ty(&ptr), Err(ParseError::Invalid));
    assert_eq!(ctx.type_resolver().len(), before);
}

#[test]
fn unknown_length_arrays_degrade_to_pointers() {
    let mut ctx = BuildContext::new();
    let int_id = int_builtin(&mut ctx, 1);
    let flavors = [
        desc(2, 0, clang::TypeKind::VariableArray(Box::new(desc(1, 0, clang::TypeKind::Other)))),
        desc(
            3,
            0,
            clang::TypeKind::DependentSizedArray(Box::new(desc(1, 0, clang::TypeKind::Other))),
        ),
        desc(4, 0, clang::TypeKind::IncompleteArray(Box::new(desc(1, 0, clang::TypeKind::Other)))),
    ];
    for flavor in flavors {
        let id = ctx.from_ty(&flavor).unwrap();
        match ctx.type_resolver().resolve_type(id).kind {
            TypeKind::Pointer(inner) => assert_eq!(inner, int_id),
            _ => panic!("expected a pointer"),
        }
    }
}

#[test]
fn constant_array_keeps_its_count() {
    let mut ctx = BuildContext::new();
    let int_id = int_builtin(&mut ctx, 1);
    let arr = desc(
        2,
        0,
        clang::TypeKind::ConstantArray(Box::new(desc(1, 0, clang::TypeKind::Other)), 16),
    );
    let id = ctx.from_ty(&arr).unwrap();
    match ctx.type_resolver().resolve_type(id).kind {
        TypeKind::Array(inner, len) => {
            assert_eq!(inner, int_id);
            assert_eq!(len, 16);
        },
        _ => panic!("expected an array"),
    }
}

#[test]
fn reference_ingests_through_its_pointee() {
    let mut ctx = BuildContext::new();
    let int_id = int_builtin(&mut ctx, 1);
    let r = desc(
        2,
        0,
        clang::TypeKind::LValueReference(Box::new(desc(1, 0, clang::TypeKind::Other))),
    );
    let id = ctx.from_ty(&r).unwrap();
    match ctx.type_resolver().resolve_type(id).kind {
        TypeKind::Reference(inner) => assert_eq!(inner, int_id),
        _ => panic!("expected a reference"),
    }
}

#[test]
fn function_prototype_carries_a_signature() {
    let mut ctx = BuildContext::new();
    let proto = desc(2, 0, clang::TypeKind::FunctionProto);
    let id = ctx.from_ty(&proto).unwrap();
    assert!(matches!(
        ctx.type_resolver().resolve_type(id).kind,
        TypeKind::Function(_)
    ));
}

#[test]
fn ingested_type_keeps_the_computed_layout() {
    let mut ctx = BuildContext::new();
    int_builtin(&mut ctx, 1);
    let ptr = clang::Type::new(
        2,
        0,
        Some(Layout::new(8, 8)),
        clang::TypeKind::Pointer(Box::new(desc(1, 0, clang::TypeKind::Other))),
    );
    let id = ctx.from_ty(&ptr).unwrap();
    let resolver = ctx.type_resolver();
    let t = resolver.resolve_type(id);
    assert_eq!(t.layout(resolver), Some(Layout::new(8, 8)));
    assert_eq!(t.name(), None);
}

#[test]
fn from_clang_ty_checks_dedup_before_anything() {
    let mut ctx = BuildContext::new();
    let int_id = int_builtin(&mut ctx, 1);
    // Even a description of an unsupported kind answers from the dedup table
    // when its identity handle is already resolved.
    let already = desc(1, 0, clang::TypeKind::Other);
    match Type::from_clang_ty(&already, &mut ctx) {
        Ok(TypeResult::AlreadyResolved(id)) => assert_eq!(id, int_id),
        _ => panic!("expected the already-resolved id"),
    }
}

#[test]
fn dedup_lookup_answers_only_for_registered_handles() {
    let mut ctx = BuildContext::new();
    let int_id = int_builtin(&mut ctx, 1);
    let known = desc(1, 0, clang::TypeKind::Other);
    let unknown = desc(2, 0, clang::TypeKind::Other);
    assert_eq!(ctx.builtin_or_resolved_ty(&known), Some(int_id));
    assert_eq!(ctx.builtin_or_resolved_ty(&unknown), None);
}

#[test]
fn parse_returns_the_fresh_type() {
    let mut ctx = BuildContext::new();
    int_builtin(&mut ctx, 1);
    let cursor = clang::Cursor {
        cur_type: desc(2, 0, clang::TypeKind::Pointer(Box::new(desc(1, 0, clang::TypeKind::Other)))),
    };
    let t = Type::parse(cursor, &mut ctx).unwrap();
    assert!(matches!(t.kind, TypeKind::Pointer(_)));
}

#[test]
fn parse_ignores_invalid_and_recoverable_types() {
    let mut ctx = BuildContext::new();
    let invalid = clang::Cursor { cur_type: desc(2, 0, clang::TypeKind::Invalid) };
    assert!(Type::parse(invalid, &mut ctx).is_none());
    let record = clang::Cursor { cur_type: desc(3, 0, clang::TypeKind::Record) };
    assert!(Type::parse(record, &mut ctx).is_none());
}
