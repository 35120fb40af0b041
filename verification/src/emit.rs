//! Rendering the generated implementation.
//!
//! Given the declaration's identifier, the validated descriptor-set
//! expression and the message-name literal, the emitter renders the text of
//! one trait implementation. Its single method evaluates the expression,
//! looks the message descriptor up by name, and unwraps the result: an absent
//! name is fatal at the consuming program's runtime, not at generation time.

use vstd::prelude::*;

verus! {

/// The text of the generated implementation for identifier `ident`,
/// descriptor-set expression `fd` and message-name literal `mn`.
pub open spec fn emitted(ident: Seq<char>, fd: Seq<char>, mn: Seq<char>) -> Seq<char> {
    "impl ::prost_reflect::ReflectMessage for "@ + ident
        + " { fn descriptor(&self) -> ::prost_reflect::MessageDescriptor { "@ + fd
        + ".get_message_by_name("@ + mn + ").expect(\"no message found\") } }"@
}

/// Render the generated implementation.
pub fn emit(ident: &String, fd: &String, mn: &String) -> (code: String)
    ensures
        code@ == emitted(ident@, fd@, mn@),
{
    let mut code = String::from_str("impl ::prost_reflect::ReflectMessage for ");
    code.append(ident.as_str());
    code.append(" { fn descriptor(&self) -> ::prost_reflect::MessageDescriptor { ");
    code.append(fd.as_str());
    code.append(".get_message_by_name(");
    code.append(mn.as_str());
    code.append(").expect(\"no message found\") } }");
    code
}

} // verus!
