//! The model of an annotated declaration.
//!
//! A declaration under transformation is supplied as plain data: its
//! identifier, its kind (struct, enum or union), and the list of attached
//! attributes. Each attribute carries the name of its path, its span, and its
//! body, already shaped either as a parenthesized comma-separated list of
//! entries or as anything else (a bare value, a top-level name/value pair, or
//! a body that does not parse at all).

use crate::span::Span;
use vstd::prelude::*;

verus! {

/// The kind of the annotated declaration.
#[derive(Clone, Copy, Debug, PartialEq, Eq, Structural)]
pub enum DeclKind {
    Struct,
    Enum,
    Union,
}

/// A literal argument value.
///
/// A literal is carried opaquely as the text of its tokens; for a string
/// literal the unescaped contents are carried as well, since the contents of
/// the `file_descriptor` argument are re-parsed as an expression.
#[derive(Debug)]
pub struct Lit {
    /// Whether the literal is a string literal.
    pub is_str: bool,
    /// For a string literal, its unescaped contents; meaningless otherwise.
    pub content: String,
    /// The literal exactly as written, e.g. `"pkg.Foo"` or `123`.
    pub tokens: String,
    /// Where the literal stands in the source.
    pub span: Span,
}

impl Clone for Lit {
    fn clone(&self) -> (r: Self)
        ensures
            r == *self,
    {
        Lit {
            is_str: self.is_str,
            content: self.content.clone(),
            tokens: self.tokens.clone(),
            span: self.span,
        }
    }
}

/// One entry of an attribute's argument list.
#[derive(Debug)]
pub enum Entry {
    /// A `name = value` pair, e.g. `message_name = "pkg.Foo"`.
    NameValue { name: String, value: Lit, span: Span },
    /// Any other shape of entry, e.g. a bare path or a nested list.
    Other { span: Span },
}

impl Clone for Entry {
    fn clone(&self) -> (r: Self)
        ensures
            r == *self,
    {
        match self {
            Entry::NameValue { name, value, span } => Entry::NameValue {
                name: name.clone(),
                value: value.clone(),
                span: *span,
            },
            Entry::Other { span } => Entry::Other { span: *span },
        }
    }
}

/// The body of one attribute.
#[derive(Debug)]
pub enum AttrBody {
    /// A parenthesized comma-separated list of entries.
    List(Vec<Entry>),
    /// Anything else: a bare value, a top-level name/value pair, or a body
    /// that does not parse as structured arguments.
    NotList,
}

/// One attribute attached to the declaration.
#[derive(Debug)]
pub struct Annotation {
    /// The text of the attribute's path, e.g. `prost_reflect`.
    pub path: String,
    /// Where the whole attribute stands in the source.
    pub span: Span,
    /// The attribute's argument body.
    pub body: AttrBody,
}

/// The declaration under transformation.
#[derive(Debug)]
pub struct Declaration {
    /// The declaration's identifier, e.g. `Foo`.
    pub ident: String,
    /// The span of the identifier.
    pub ident_span: Span,
    /// Whether the declaration is a struct, an enum or a union.
    pub kind: DeclKind,
    /// The attributes attached to the declaration, in declaration order.
    pub attrs: Vec<Annotation>,
}

/// The required arguments, named by the error that reports one missing.
#[derive(Clone, Copy, Debug, PartialEq, Eq, Structural)]
pub enum ArgName {
    FileDescriptor,
    MessageName,
}

/// A generation-time failure, carrying the span the diagnostic points at.
///
/// Every failure is terminal: no code is generated for the declaration.
#[derive(Clone, Copy, Debug, PartialEq, Eq, Structural)]
pub enum GenError {
    /// No recognized attribute is present; points at the declaration's
    /// identifier.
    MissingAnnotation(Span),
    /// An attribute's body is not a parenthesized list; points at that
    /// attribute.
    MalformedAnnotation(Span),
    /// A name/value entry uses an unknown name; points at that entry.
    UnrecognizedArgumentName(Span),
    /// An entry is not a name/value pair; points at that entry.
    UnexpectedEntryShape(Span),
    /// A required argument is absent from the merged argument set; points at
    /// the combined span of the recognized attributes.
    MissingArgument { name: ArgName, span: Span },
    /// The `file_descriptor` value is not a string literal; points at the
    /// combined span of the recognized attributes.
    InvalidArgumentType(Span),
    /// The contents of the `file_descriptor` string do not parse as an
    /// expression; points at that literal.
    SyntaxError(Span),
}

/// The diagnostic text of each error, as rendered for the build tool.
pub open spec fn message_spec(e: GenError) -> Seq<char> {
    match e {
        GenError::MissingAnnotation(_) => "missing #[prost_reflect] attribute"@,
        GenError::MalformedAnnotation(_) => "expected list of attributes"@,
        GenError::UnrecognizedArgumentName(_) => "unknown argument (expected 'file_descriptor' or 'message_name')"@,
        GenError::UnexpectedEntryShape(_) => "unexpected attribute"@,
        GenError::MissingArgument { name: ArgName::FileDescriptor, .. } => "missing required argument 'file_descriptor'"@,
        GenError::MissingArgument { name: ArgName::MessageName, .. } => "missing required argument 'message_name'"@,
        GenError::InvalidArgumentType(_) => "'file_descriptor_set' must be a string literal"@,
        GenError::SyntaxError(_) => "invalid expression in 'file_descriptor'"@,
    }
}

impl GenError {
    /// The span the diagnostic points at.
    pub open spec fn span_spec(self) -> Span {
        match self {
            GenError::MissingAnnotation(s) => s,
            GenError::MalformedAnnotation(s) => s,
            GenError::UnrecognizedArgumentName(s) => s,
            GenError::UnexpectedEntryShape(s) => s,
            GenError::MissingArgument { span, .. } => span,
            GenError::InvalidArgumentType(s) => s,
            GenError::SyntaxError(s) => s,
        }
    }

    /// The span the diagnostic points at.
    pub fn span(&self) -> (r: Span)
        ensures
            r == self.span_spec(),
    {
        match self {
            GenError::MissingAnnotation(s) => *s,
            GenError::MalformedAnnotation(s) => *s,
            GenError::UnrecognizedArgumentName(s) => *s,
            GenError::UnexpectedEntryShape(s) => *s,
            GenError::MissingArgument { span, .. } => *span,
            GenError::InvalidArgumentType(s) => *s,
            GenError::SyntaxError(s) => *s,
        }
    }

    /// The diagnostic text of the error, as rendered for the build tool.
    pub fn message(&self) -> (r: String)
        ensures
            r@ == message_spec(*self),
    {
        match self {
            GenError::MissingAnnotation(_) => String::from_str("missing #[prost_reflect] attribute"),
            GenError::MalformedAnnotation(_) => String::from_str("expected list of attributes"),
            GenError::UnrecognizedArgumentName(_) => String::from_str(
                "unknown argument (expected 'file_descriptor' or 'message_name')",
            ),
            GenError::UnexpectedEntryShape(_) => String::from_str("unexpected attribute"),
            GenError::MissingArgument { name: ArgName::FileDescriptor, .. } => String::from_str(
                "missing required argument 'file_descriptor'",
            ),
            GenError::MissingArgument { name: ArgName::MessageName, .. } => String::from_str(
                "missing required argument 'message_name'",
            ),
            GenError::InvalidArgumentType(_) => String::from_str(
                "'file_descriptor_set' must be a string literal",
            ),
            GenError::SyntaxError(_) => String::from_str("invalid expression in 'file_descriptor'"),
        }
    }
}

} // verus!
