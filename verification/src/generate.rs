//! The whole transformation, from a declaration to the generated text.
//!
//! The pipeline branches once on the declaration's kind: enums and unions
//! receive no generated code at all — an intentionally empty result, with the
//! attributes never inspected — while structs run through collection,
//! validation and emission, failing at the first error.

use crate::args::{fd_spec, mn_spec, parse_spec, Args};
use crate::emit::{emit, emitted};
use crate::span::Span;
use crate::syntax::{DeclKind, Declaration, GenError};
use vstd::prelude::*;

verus! {

/// What generation yields for a declaration: the text of one trait
/// implementation for a struct with well-formed arguments, the empty text for
/// an enum or a union whatever its attributes, and otherwise the first error
/// of collection, validation, or argument access — `file_descriptor` checked
/// before `message_name`.
pub open spec fn gen_spec(decl: Declaration) -> Result<Seq<char>, GenError> {
    if !(decl.kind is Struct) {
        Ok(Seq::empty())
    } else {
        match parse_spec(decl.ident_span, decl.attrs@) {
            Err(e) => Err(e),
            Ok(args) => match fd_spec(args) {
                Err(e) => Err(e),
                Ok(fd) => match mn_spec(args) {
                    Err(e) => Err(e),
                    Ok(mn) => Ok(emitted(decl.ident@, fd, mn)),
                },
            },
        }
    }
}

/// Generate the reflection implementation for one declaration.
pub fn reflect_message_impl(decl: &Declaration) -> (r: Result<String, GenError>)
    ensures
        r matches Ok(code) ==> gen_spec(*decl) matches Ok(t) && code@ == t,
        r matches Err(e) ==> gen_spec(*decl) matches Err(e2) && e == e2,
{
    match decl.kind {
        DeclKind::Enum => {
            return Ok(String::new());
        },
        DeclKind::Union => {
            return Ok(String::new());
        },
        DeclKind::Struct => {},
    }
    let args = match Args::parse(decl.ident_span, &decl.attrs) {
        Ok(a) => a,
        Err(e) => {
            return Err(e);
        },
    };
    let fd = match args.file_descriptor() {
        Ok(f) => f,
        Err(e) => {
            return Err(e);
        },
    };
    let mn = match args.message_name() {
        Ok(m) => m,
        Err(e) => {
            return Err(e);
        },
    };
    Ok(emit(&decl.ident, &fd, &mn))
}

} // verus!
