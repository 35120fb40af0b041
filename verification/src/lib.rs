//! Attribute-driven generation of `ReflectMessage` implementations.
//!
//! The crate models a declaration (a struct, enum or union together with its
//! attached attributes) as plain data, collects the arguments of every
//! `#[prost_reflect(...)]` attribute, validates them, and renders the text of
//! a trait implementation whose single method looks a message descriptor up
//! by its fully qualified name.

pub mod args;
pub mod emit;
pub mod expr;
pub mod generate;
pub mod laws;
pub mod span;
pub mod syntax;

pub use args::{Args, is_prost_reflect_attribute};
pub use emit::emit;
pub use generate::reflect_message_impl;
pub use span::Span;
pub use span::span_join;
pub use syntax::{Annotation, ArgName, AttrBody, DeclKind, Declaration, Entry, GenError, Lit};
