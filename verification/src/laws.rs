//! The laws of the transformation, stated and proved once over all inputs.
//!
//! Each public proof function here states one guarantee of the pipeline over
//! every declaration it speaks of: what a non-struct yields, when a struct
//! fails and with which error, that duplicated argument names are resolved by
//! taking the later value, and what the output of a well-formed struct
//! declaration is, exactly.

use crate::args::{collect_spec, fd_spec, is_recognized, parse_spec, scan_from};
use crate::emit::emitted;
use crate::expr::parsed_expr;
use crate::generate::gen_spec;
use crate::span::Span;
use crate::syntax::{Annotation, ArgName, Declaration, Entry, GenError, Lit};
use vstd::prelude::*;

verus! {

/// Whether an entry is a `name = value` pair bearing one of the two
/// recognized argument names.
pub open spec fn good_entry(e: Entry) -> bool {
    e matches Entry::NameValue { name, .. } && (name@ == "file_descriptor"@ || name@
        == "message_name"@)
}

/// Whether every entry of a merged argument list is well shaped: a
/// `name = value` pair with a recognized name.
pub open spec fn entries_well_shaped(entries: Seq<Entry>) -> bool {
    forall|i: int| 0 <= i < entries.len() ==> good_entry(#[trigger] entries[i])
}

/// The value of the last entry bearing the name `key`, if any: the value that
/// the last-wins policy retains.
pub open spec fn last_named(entries: Seq<Entry>, key: Seq<char>) -> Option<Lit>
    decreases entries.len(),
{
    if entries.len() == 0 {
        None
    } else {
        let rest = last_named(entries.drop_first(), key);
        if rest is Some {
            rest
        } else {
            match entries[0] {
                Entry::NameValue { name, value, .. } => if name@ == key {
                    Some(value)
                } else {
                    None
                },
                Entry::Other { .. } => None,
            }
        }
    }
}

/// What validation makes of any starting state and any entry list: it
/// succeeds exactly on well-shaped lists, and then retains, for each
/// recognized name, the value of the last entry bearing it — or the starting
/// value where no entry does.
pub proof fn lemma_scan_from(fd0: Option<Lit>, mn0: Option<Lit>, entries: Seq<Entry>)
    ensures
        scan_from(fd0, mn0, entries) is Ok <==> entries_well_shaped(entries),
        entries_well_shaped(entries) ==> (scan_from(fd0, mn0, entries) matches Ok(r) && r.0 == (
        if last_named(entries, "file_descriptor"@) is Some {
            last_named(entries, "file_descriptor"@)
        } else {
            fd0
        }) && r.1 == (if last_named(entries, "message_name"@) is Some {
            last_named(entries, "message_name"@)
        } else {
            mn0
        })),
    decreases entries.len(),
{
    reveal_strlit("file_descriptor");
    reveal_strlit("message_name");
    assert("file_descriptor"@.len() == 15);
    assert("message_name"@.len() == 12);
    if entries.len() == 0 {
    } else {
        let rest = entries.drop_first();
        assert(entries_well_shaped(entries) ==> good_entry(entries[0]) && entries_well_shaped(
            rest,
        )) by {
            if entries_well_shaped(entries) {
                assert(good_entry(entries[0]));
                assert forall|i: int| 0 <= i < rest.len() implies good_entry(
                    #[trigger] rest[i],
                ) by {
                    assert(rest[i] == entries[i + 1]);
                }
            }
        }
        if good_entry(entries[0]) && entries_well_shaped(rest) {
            assert forall|i: int| 0 <= i < entries.len() implies good_entry(
                #[trigger] entries[i],
            ) by {
                if i > 0 {
                    assert(entries[i] == rest[i - 1]);
                }
            }
        }
        match entries[0] {
            Entry::NameValue { name, value, span } => {
                if name@ == "file_descriptor"@ {
                    lemma_scan_from(Some(value), mn0, rest);
                } else if name@ == "message_name"@ {
                    lemma_scan_from(fd0, Some(value), rest);
                } else {
                    lemma_scan_from(fd0, mn0, rest);
                }
            },
            Entry::Other { .. } => {},
        }
    }
}

/// Last wins: over a well-shaped merged argument list, validation succeeds —
/// a duplicated name raises no error — and for each recognized name the value
/// retained is the one of the last entry bearing that name.
pub proof fn lemma_last_wins(entries: Seq<Entry>)
    requires
        entries_well_shaped(entries),
    ensures
        scan_from(None, None, entries) matches Ok(r) && r.0 == last_named(
            entries,
            "file_descriptor"@,
        ) && r.1 == last_named(entries, "message_name"@),
{
    lemma_scan_from(None, None, entries);
}

/// An enum or union declaration generates the empty output, whatever its
/// attributes hold: validation never runs for such a declaration, so no
/// validation error is ever raised for it.
pub proof fn lemma_non_struct_empty(decl: Declaration)
    requires
        !(decl.kind is Struct),
    ensures
        gen_spec(decl) matches Ok(code) && code == Seq::<char>::empty(),
{
}

/// Collection passes over a run of attributes none of which is recognized
/// without changing its state.
proof fn lemma_collect_skips_all(
    acc: Option<Span>,
    entries: Seq<Entry>,
    anns: Seq<Annotation>,
)
    requires
        forall|i: int| 0 <= i < anns.len() ==> !is_recognized(#[trigger] anns[i]),
    ensures
        crate::args::collect_from(acc, entries, anns) matches Ok(r) && r.0 == acc && r.1
            == entries,
    decreases anns.len(),
{
    if anns.len() == 0 {
    } else {
        let rest = anns.drop_first();
        assert forall|i: int| 0 <= i < rest.len() implies !is_recognized(#[trigger] rest[i]) by {
            assert(rest[i] == anns[i + 1]);
        }
        lemma_collect_skips_all(acc, entries, rest);
    }
}

/// A struct declaration with no recognized attribute fails with
/// `MissingAnnotation`, pointing at the declaration's identifier.
pub proof fn lemma_missing_annotation(decl: Declaration)
    requires
        decl.kind is Struct,
        forall|i: int| 0 <= i < decl.attrs@.len() ==> !is_recognized(#[trigger] decl.attrs@[i]),
    ensures
        gen_spec(decl) matches Err(e) && e == GenError::MissingAnnotation(decl.ident_span),
{
    lemma_collect_skips_all(None, Seq::empty(), decl.attrs@);
}

/// A struct declaration whose merged argument set lacks `file_descriptor`
/// fails with `MissingArgument` for that name, at the combined span of the
/// recognized attributes — whether or not `message_name` is present, since
/// `file_descriptor` is examined first.
pub proof fn lemma_missing_file_descriptor(decl: Declaration)
    requires
        decl.kind is Struct,
        parse_spec(decl.ident_span, decl.attrs@) matches Ok(args) && args.file_descriptor is None,
    ensures
        gen_spec(decl) matches Err(e) && e == (GenError::MissingArgument {
            name: ArgName::FileDescriptor,
            span: parse_spec(decl.ident_span, decl.attrs@)->Ok_0.args_span,
        }),
{
}

/// A struct declaration whose merged argument set holds a well-formed
/// `file_descriptor` but lacks `message_name` fails with `MissingArgument`
/// for that name, at the combined span of the recognized attributes.
pub proof fn lemma_missing_message_name(decl: Declaration)
    requires
        decl.kind is Struct,
        parse_spec(decl.ident_span, decl.attrs@) matches Ok(args) && args.message_name is None
            && fd_spec(args) is Ok,
    ensures
        gen_spec(decl) matches Err(e) && e == (GenError::MissingArgument {
            name: ArgName::MessageName,
            span: parse_spec(decl.ident_span, decl.attrs@)->Ok_0.args_span,
        }),
{
}

/// A struct declaration whose retained `file_descriptor` value is not a
/// string literal fails with `InvalidArgumentType`, at the combined span of
/// the recognized attributes.
pub proof fn lemma_non_string_file_descriptor(decl: Declaration)
    requires
        decl.kind is Struct,
        parse_spec(decl.ident_span, decl.attrs@) matches Ok(args) && args.file_descriptor matches
            Some(l) && !l.is_str,
    ensures
        gen_spec(decl) matches Err(e) && e == GenError::InvalidArgumentType(
            parse_spec(decl.ident_span, decl.attrs@)->Ok_0.args_span,
        ),
{
}

/// The merged entry list a declaration's attributes collect into, where
/// collection succeeds.
pub open spec fn collected_entries(decl: Declaration) -> Seq<Entry> {
    collect_spec(decl.ident_span, decl.attrs@)->Ok_0.1
}

/// Whether the retained `file_descriptor` value is well formed: present, a
/// string literal, and holding contents that parse as an expression.
pub open spec fn wf_file_descriptor(l: Option<Lit>) -> bool {
    l matches Some(l) && l.is_str && parsed_expr(l.content@) is Some
}

/// Whether a struct declaration's arguments are well formed: collection
/// succeeds, every merged entry bears a recognized name, the retained
/// `file_descriptor` is a string literal holding an expression, and
/// `message_name` is present.
pub open spec fn well_formed_struct(decl: Declaration) -> bool {
    &&& decl.kind is Struct
    &&& collect_spec(decl.ident_span, decl.attrs@) is Ok
    &&& entries_well_shaped(collected_entries(decl))
    &&& wf_file_descriptor(last_named(collected_entries(decl), "file_descriptor"@))
    &&& last_named(collected_entries(decl), "message_name"@) is Some
}

/// For every struct declaration with well-formed arguments, generation
/// succeeds, and the output is exactly the text of the one implementation
/// whose single method looks the last-retained message name up in the
/// last-retained descriptor-set expression.
pub proof fn lemma_struct_well_formed(decl: Declaration)
    requires
        well_formed_struct(decl),
    ensures
        gen_spec(decl) matches Ok(code) && code == emitted(
            decl.ident@,
            parsed_expr(last_named(collected_entries(decl), "file_descriptor"@)->0.content@)->0,
            last_named(collected_entries(decl), "message_name"@)->0.tokens@,
        ),
{
    lemma_last_wins(collected_entries(decl));
}

/// For a struct declaration, generation succeeds exactly when the arguments
/// are well formed; on every other struct declaration it fails with one of
/// the generation-time errors.
pub proof fn lemma_struct_succeeds_iff_well_formed(decl: Declaration)
    requires
        decl.kind is Struct,
    ensures
        gen_spec(decl) is Ok <==> well_formed_struct(decl),
{
    if collect_spec(decl.ident_span, decl.attrs@) is Ok {
        lemma_scan_from(None, None, collected_entries(decl));
    }
}

} // verus!
