//! Collecting and validating the attribute arguments.
//!
//! The collector selects the attributes whose path is exactly
//! `prost_reflect`, merges their argument lists in declaration order into one
//! combined list, and joins their spans into the combined span used for any
//! error about the argument set as a whole. The validator walks the combined
//! list once; each entry must be a `name = value` pair naming one of the two
//! recognized arguments, and when a name repeats, the later value silently
//! overwrites the earlier one (last wins, by design).

use crate::expr::{parse_expr_tokens, parsed_expr};
use crate::span::{span_join, Span};
use crate::syntax::{Annotation, ArgName, AttrBody, Entry, GenError, Lit};
use vstd::prelude::*;

verus! {

/// Whether an attribute belongs to the recognized namespace: an exact path
/// match, with no inheritance and no wildcards.
pub open spec fn is_recognized(a: Annotation) -> bool {
    a.path@ == "prost_reflect"@
}

/// Whether an attribute belongs to the recognized namespace.
pub fn is_prost_reflect_attribute(attr: &Annotation) -> (r: bool)
    ensures
        r == is_recognized(*attr),
{
    let key = String::from_str("prost_reflect");
    attr.path == key
}

/// One step of the collector per attribute, front to back: an unrecognized
/// attribute is skipped; a recognized one joins its span into the running
/// combined span and appends its entries, unless its body is not a list, in
/// which case collection fails at that attribute.
pub open spec fn collect_from(
    acc: Option<Span>,
    entries: Seq<Entry>,
    anns: Seq<Annotation>,
) -> Result<(Option<Span>, Seq<Entry>), GenError>
    decreases anns.len(),
{
    if anns.len() == 0 {
        Ok((acc, entries))
    } else {
        let a = anns[0];
        if !is_recognized(a) {
            collect_from(acc, entries, anns.drop_first())
        } else {
            let joined = match acc {
                Some(s) => span_join(s, a.span),
                None => a.span,
            };
            match a.body {
                AttrBody::List(es) => collect_from(Some(joined), entries + es@, anns.drop_first()),
                AttrBody::NotList => Err(GenError::MalformedAnnotation(a.span)),
            }
        }
    }
}

/// The collector: the combined entry list and combined span of the recognized
/// attributes, or the error that stops collection. With no recognized
/// attribute at all, collection fails pointing at the declaration's
/// identifier.
pub open spec fn collect_spec(input_span: Span, attrs: Seq<Annotation>) -> Result<
    (Span, Seq<Entry>),
    GenError,
> {
    match collect_from(None, Seq::empty(), attrs) {
        Err(e) => Err(e),
        Ok((acc, entries)) => match acc {
            None => Err(GenError::MissingAnnotation(input_span)),
            Some(s) => Ok((s, entries)),
        },
    }
}

/// One step of the validator per entry, front to back: a recognized
/// `name = value` pair overwrites the value retained for that name; any other
/// entry fails validation at that entry.
pub open spec fn scan_from(
    fd: Option<Lit>,
    mn: Option<Lit>,
    entries: Seq<Entry>,
) -> Result<(Option<Lit>, Option<Lit>), GenError>
    decreases entries.len(),
{
    if entries.len() == 0 {
        Ok((fd, mn))
    } else {
        match entries[0] {
            Entry::NameValue { name, value, span } => {
                if name@ == "file_descriptor"@ {
                    scan_from(Some(value), mn, entries.drop_first())
                } else if name@ == "message_name"@ {
                    scan_from(fd, Some(value), entries.drop_first())
                } else {
                    Err(GenError::UnrecognizedArgumentName(span))
                }
            },
            Entry::Other { span } => Err(GenError::UnexpectedEntryShape(span)),
        }
    }
}

/// The validated argument set: the combined span of the recognized
/// attributes, and the retained value of each recognized argument.
pub struct Args {
    /// The combined span of all recognized attributes, used for any error
    /// about the argument set as a whole.
    pub args_span: Span,
    /// The retained `file_descriptor` value, if any.
    pub file_descriptor: Option<Lit>,
    /// The retained `message_name` value, if any.
    pub message_name: Option<Lit>,
}

/// The whole of collection and validation: the argument set obtained from a
/// declaration's attributes, or the first error on the way there.
pub open spec fn parse_spec(input_span: Span, attrs: Seq<Annotation>) -> Result<Args, GenError> {
    match collect_spec(input_span, attrs) {
        Err(e) => Err(e),
        Ok((args_span, entries)) => match scan_from(None, None, entries) {
            Err(e) => Err(e),
            Ok((fd, mn)) => Ok(Args { args_span, file_descriptor: fd, message_name: mn }),
        },
    }
}

/// The `file_descriptor` accessor: the token text of the expression held by
/// the retained string literal, or the error reporting why there is none.
pub open spec fn fd_spec(args: Args) -> Result<Seq<char>, GenError> {
    match args.file_descriptor {
        None => Err(
            GenError::MissingArgument { name: ArgName::FileDescriptor, span: args.args_span },
        ),
        Some(l) => if !l.is_str {
            Err(GenError::InvalidArgumentType(args.args_span))
        } else {
            match parsed_expr(l.content@) {
                None => Err(GenError::SyntaxError(l.span)),
                Some(t) => Ok(t),
            }
        },
    }
}

/// The `message_name` accessor: the retained literal's tokens, passed through
/// opaquely, or the error reporting that the argument is absent.
pub open spec fn mn_spec(args: Args) -> Result<Seq<char>, GenError> {
    match args.message_name {
        None => Err(GenError::MissingArgument { name: ArgName::MessageName, span: args.args_span }),
        Some(l) => Ok(l.tokens@),
    }
}

impl Args {
    /// Collect the recognized attributes and validate their merged argument
    /// list.
    #[verifier::loop_isolation(false)]
    pub fn parse(input_span: Span, attrs: &Vec<Annotation>) -> (r: Result<Args, GenError>)
        ensures
            r == parse_spec(input_span, attrs@),
    {
        let mut acc: Option<Span> = None;
        let mut entries: Vec<Entry> = Vec::new();
        let mut i: usize = 0;
        proof {
            assert(attrs@.skip(0) =~= attrs@);
        }
        while i < attrs.len()
            invariant
                i <= attrs.len(),
                collect_from(None, Seq::empty(), attrs@) == collect_from(
                    acc,
                    entries@,
                    attrs@.skip(i as int),
                ),
            decreases attrs.len() - i,
        {
            proof {
                assert(attrs@.skip(i as int)[0] == attrs@[i as int]);
                assert(attrs@.skip(i as int).drop_first() =~= attrs@.skip(i as int + 1));
            }
            let a = &attrs[i];
            if is_prost_reflect_attribute(a) {
                let joined = match acc {
                    Some(s) => s.join(a.span),
                    None => a.span,
                };
                match &a.body {
                    AttrBody::List(es) => {
                        let ghost entries_snap = entries@;
                        let mut j: usize = 0;
                        while j < es.len()
                            invariant
                                j <= es.len(),
                                entries@ == entries_snap + es@.subrange(0, j as int),
                            decreases es.len() - j,
                        {
                            entries.push(es[j].clone());
                            proof {
                                assert(entries_snap + es@.subrange(0, j as int) + seq![es@[j as int]]
                                    =~= entries_snap + es@.subrange(0, j as int + 1));
                            }
                            j = j + 1;
                        }
                        proof {
                            assert(es@.subrange(0, es@.len() as int) =~= es@);
                        }
                        acc = Some(joined);
                    },
                    AttrBody::NotList => {
                        return Err(GenError::MalformedAnnotation(a.span));
                    },
                }
            }
            i = i + 1;
        }
        proof {
            assert(attrs@.skip(attrs@.len() as int) =~= Seq::<Annotation>::empty());
        }
        let args_span = match acc {
            Some(s) => s,
            None => {
                return Err(GenError::MissingAnnotation(input_span));
            },
        };
        let fd_key = String::from_str("file_descriptor");
        let mn_key = String::from_str("message_name");
        let mut fd: Option<Lit> = None;
        let mut mn: Option<Lit> = None;
        let mut k: usize = 0;
        proof {
            assert(entries@.skip(0) =~= entries@);
        }
        while k < entries.len()
            invariant
                k <= entries.len(),
                fd_key@ == "file_descriptor"@,
                mn_key@ == "message_name"@,
                scan_from(None, None, entries@) == scan_from(fd, mn, entries@.skip(k as int)),
            decreases entries.len() - k,
        {
            proof {
                assert(entries@.skip(k as int)[0] == entries@[k as int]);
                assert(entries@.skip(k as int).drop_first() =~= entries@.skip(k as int + 1));
            }
            match &entries[k] {
                Entry::NameValue { name, value, span } => {
                    if *name == fd_key {
                        fd = Some(value.clone());
                    } else if *name == mn_key {
                        mn = Some(value.clone());
                    } else {
                        return Err(GenError::UnrecognizedArgumentName(*span));
                    }
                },
                Entry::Other { span } => {
                    return Err(GenError::UnexpectedEntryShape(*span));
                },
            }
            k = k + 1;
        }
        proof {
            assert(entries@.skip(entries@.len() as int) =~= Seq::<Entry>::empty());
        }
        Ok(Args { args_span, file_descriptor: fd, message_name: mn })
    }

    /// The validated `file_descriptor` expression, as the token text obtained
    /// by re-parsing the string literal's contents.
    pub fn file_descriptor(&self) -> (r: Result<String, GenError>)
        ensures
            r matches Ok(t) ==> fd_spec(*self) matches Ok(u) && t@ == u,
            r matches Err(e) ==> fd_spec(*self) matches Err(e2) && e == e2,
    {
        match &self.file_descriptor {
            Some(l) => {
                if l.is_str {
                    match parse_expr_tokens(l.content.as_str()) {
                        Some(t) => Ok(t),
                        None => Err(GenError::SyntaxError(l.span)),
                    }
                } else {
                    Err(GenError::InvalidArgumentType(self.args_span))
                }
            },
            None => Err(
                GenError::MissingArgument { name: ArgName::FileDescriptor, span: self.args_span },
            ),
        }
    }

    /// The validated `message_name` literal, passed through opaquely as its
    /// token text.
    pub fn message_name(&self) -> (r: Result<String, GenError>)
        ensures
            r matches Ok(t) ==> mn_spec(*self) matches Ok(u) && t@ == u,
            r matches Err(e) ==> mn_spec(*self) matches Err(e2) && e == e2,
    {
        match &self.message_name {
            Some(l) => Ok(l.tokens.clone()),
            None => Err(
                GenError::MissingArgument { name: ArgName::MessageName, span: self.args_span },
            ),
        }
    }
}

} // verus!
