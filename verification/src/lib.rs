//! A language-neutral intermediate representation (IR) of foreign
//! (C/C++-style) types, together with:
//!
//! - a registry that owns every IR node and hands out stable [`item::ItemId`]
//!   handles, so that cyclic type graphs (a struct holding a pointer to
//!   itself) are representable without cyclic ownership;
//! - an ingestion protocol that translates one foreign type description into
//!   an IR node, deduplicating descriptions that were already resolved,
//!   unwrapping transparent sugar, and recursing into nested types;
//! - a derivability analysis: recursive predicates deciding whether generated
//!   code may attach value-copy or debug-printing capabilities to a type, or
//!   whether the type may run a destructor.
//!
//! The foreign AST walker, composite-member layout, enum variants and
//! function-signature parsing are collaborators outside this crate; they are
//! represented here by plain-value models at the boundary.

pub mod clang;
pub mod comp;
pub mod context;
pub mod enum_ty;
pub mod function;
pub mod int_kind;
pub mod item;
pub mod layout;
pub mod parse;
pub mod ty;
