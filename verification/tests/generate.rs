use prost_reflect_derive::{
    reflect_message_impl, Annotation, ArgName, AttrBody, DeclKind, Declaration, Entry, GenError,
    Lit, Span,
};

fn sp(start: u64, end: u64) -> Span {
    Span { start, end }
}

fn str_lit(content: &str, span: Span) -> Lit {
    Lit {
        is_str: true,
        content: content.to_string(),
        tokens: format!("\"{}\"", content),
        span,
    }
}

fn int_lit(text: &str, span: Span) -> Lit {
    Lit {
        is_str: false,
        content: String::new(),
        tokens: text.to_string(),
        span,
    }
}

fn nv(name: &str, value: Lit, span: Span) -> Entry {
    Entry::NameValue {
        name: name.to_string(),
        value,
        span,
    }
}

fn reflect_attr(entries: Vec<Entry>, span: Span) -> Annotation {
    Annotation {
        path: "prost_reflect".to_string(),
        span,
        body: AttrBody::List(entries),
    }
}

fn decl(ident: &str, kind: DeclKind, attrs: Vec<Annotation>) -> Declaration {
    Declaration {
        ident: ident.to_string(),
        ident_span: sp(0, 3),
        kind,
        attrs,
    }
}

fn well_formed_foo() -> Declaration {
    decl(
        "Foo",
        DeclKind::Struct,
        vec![reflect_attr(
            vec![
                nv("file_descriptor", str_lit("FILE_DESCRIPTOR", sp(10, 20)), sp(10, 20)),
                nv("message_name", str_lit("pkg.Foo", sp(21, 30)), sp(21, 30)),
            ],
            sp(5, 31),
        )],
    )
}

#[test]
fn generates_impl_for_well_formed_struct() {
    let code = reflect_message_impl(&well_formed_foo()).unwrap();
    assert_eq!(
        code,
        "impl ::prost_reflect::ReflectMessage for Foo { \
         fn descriptor(&self) -> ::prost_reflect::MessageDescriptor { \
         FILE_DESCRIPTOR.get_message_by_name(\"pkg.Foo\")\
         .expect(\"no message found\") } }"
    );
}

#[test]
fn generated_code_parses_with_exactly_one_method() {
    let code = reflect_message_impl(&well_formed_foo()).unwrap();
    let file = syn::parse_str::<syn::File>(&code).expect("generated code must parse");
    assert_eq!(file.items.len(), 1);
    match &file.items[0] {
        syn::Item::Impl(item) => {
            assert_eq!(item.items.len(), 1);
            match &item.items[0] {
                syn::ImplItem::Method(m) => {
                    assert_eq!(m.sig.ident.to_string(), "descriptor");
                }
                _ => panic!("expected a method"),
            }
        }
        _ => panic!("expected an impl item"),
    }
}

#[test]
fn missing_attribute_fails_at_identifier() {
    let d = decl("Bar", DeclKind::Struct, vec![]);
    let err = reflect_message_impl(&d).unwrap_err();
    assert_eq!(err, GenError::MissingAnnotation(sp(0, 3)));
    assert_eq!(err.message(), "missing #[prost_reflect] attribute");
    assert_eq!(err.span(), sp(0, 3));
}

#[test]
fn unrecognized_attributes_do_not_count() {
    let other = Annotation {
        path: "serde".to_string(),
        span: sp(4, 9),
        body: AttrBody::List(vec![]),
    };
    let d = decl("Bar", DeclKind::Struct, vec![other]);
    let err = reflect_message_impl(&d).unwrap_err();
    assert_eq!(err, GenError::MissingAnnotation(sp(0, 3)));
}

#[test]
fn enum_generates_empty_output() {
    let d = decl("Baz", DeclKind::Enum, vec![]);
    assert_eq!(reflect_message_impl(&d).unwrap(), "");
}

#[test]
fn enum_with_malformed_attribute_still_generates_empty_output() {
    let malformed = Annotation {
        path: "prost_reflect".to_string(),
        span: sp(5, 12),
        body: AttrBody::NotList,
    };
    let d = decl("Baz", DeclKind::Enum, vec![malformed]);
    assert_eq!(reflect_message_impl(&d).unwrap(), "");
}

#[test]
fn union_generates_empty_output() {
    let attr = reflect_attr(
        vec![nv("file_descriptor", str_lit("FD", sp(10, 12)), sp(10, 12))],
        sp(5, 13),
    );
    let d = decl("Uni", DeclKind::Union, vec![attr]);
    assert_eq!(reflect_message_impl(&d).unwrap(), "");
}

#[test]
fn malformed_attribute_on_struct_fails() {
    let malformed = Annotation {
        path: "prost_reflect".to_string(),
        span: sp(5, 12),
        body: AttrBody::NotList,
    };
    let d = decl("Foo", DeclKind::Struct, vec![malformed]);
    let err = reflect_message_impl(&d).unwrap_err();
    assert_eq!(err, GenError::MalformedAnnotation(sp(5, 12)));
    assert_eq!(err.message(), "expected list of attributes");
}

#[test]
fn missing_message_name_fails() {
    let attr = reflect_attr(
        vec![nv("file_descriptor", str_lit("FD", sp(10, 14)), sp(10, 14))],
        sp(5, 15),
    );
    let d = decl("Foo", DeclKind::Struct, vec![attr]);
    let err = reflect_message_impl(&d).unwrap_err();
    assert_eq!(
        err,
        GenError::MissingArgument {
            name: ArgName::MessageName,
            span: sp(5, 15),
        }
    );
    assert_eq!(err.message(), "missing required argument 'message_name'");
}

#[test]
fn missing_file_descriptor_fails() {
    let attr = reflect_attr(
        vec![nv("message_name", str_lit("pkg.Foo", sp(10, 19)), sp(10, 19))],
        sp(5, 20),
    );
    let d = decl("Foo", DeclKind::Struct, vec![attr]);
    let err = reflect_message_impl(&d).unwrap_err();
    assert_eq!(
        err,
        GenError::MissingArgument {
            name: ArgName::FileDescriptor,
            span: sp(5, 20),
        }
    );
    assert_eq!(err.message(), "missing required argument 'file_descriptor'");
}

#[test]
fn missing_both_reports_file_descriptor_first() {
    let attr = reflect_attr(vec![], sp(5, 8));
    let d = decl("Foo", DeclKind::Struct, vec![attr]);
    let err = reflect_message_impl(&d).unwrap_err();
    assert_eq!(
        err,
        GenError::MissingArgument {
            name: ArgName::FileDescriptor,
            span: sp(5, 8),
        }
    );
}

#[test]
fn non_string_file_descriptor_fails() {
    let attr = reflect_attr(
        vec![
            nv("file_descriptor", int_lit("123", sp(10, 13)), sp(10, 13)),
            nv("message_name", str_lit("pkg.Foo", sp(14, 23)), sp(14, 23)),
        ],
        sp(5, 24),
    );
    let d = decl("Foo", DeclKind::Struct, vec![attr]);
    let err = reflect_message_impl(&d).unwrap_err();
    assert_eq!(err, GenError::InvalidArgumentType(sp(5, 24)));
    assert_eq!(err.message(), "'file_descriptor_set' must be a string literal");
}

#[test]
fn unparseable_file_descriptor_contents_fail() {
    let attr = reflect_attr(
        vec![
            nv("file_descriptor", str_lit("not an expression ((", sp(10, 32)), sp(10, 32)),
            nv("message_name", str_lit("pkg.Foo", sp(33, 42)), sp(33, 42)),
        ],
        sp(5, 43),
    );
    let d = decl("Foo", DeclKind::Struct, vec![attr]);
    let err = reflect_message_impl(&d).unwrap_err();
    assert_eq!(err, GenError::SyntaxError(sp(10, 32)));
}

#[test]
fn unknown_argument_name_fails() {
    let attr = reflect_attr(
        vec![nv("descriptor", str_lit("FD", sp(10, 14)), sp(10, 14))],
        sp(5, 15),
    );
    let d = decl("Foo", DeclKind::Struct, vec![attr]);
    let err = reflect_message_impl(&d).unwrap_err();
    assert_eq!(err, GenError::UnrecognizedArgumentName(sp(10, 14)));
    assert_eq!(
        err.message(),
        "unknown argument (expected 'file_descriptor' or 'message_name')"
    );
}

#[test]
fn entry_that_is_not_name_value_fails() {
    let attr = reflect_attr(vec![Entry::Other { span: sp(10, 13) }], sp(5, 14));
    let d = decl("Foo", DeclKind::Struct, vec![attr]);
    let err = reflect_message_impl(&d).unwrap_err();
    assert_eq!(err, GenError::UnexpectedEntryShape(sp(10, 13)));
    assert_eq!(err.message(), "unexpected attribute");
}

#[test]
fn later_duplicate_wins() {
    let attr = reflect_attr(
        vec![
            nv("file_descriptor", str_lit("FIRST", sp(10, 17)), sp(10, 17)),
            nv("message_name", str_lit("pkg.Old", sp(18, 27)), sp(18, 27)),
            nv("file_descriptor", str_lit("SECOND", sp(28, 36)), sp(28, 36)),
            nv("message_name", str_lit("pkg.New", sp(37, 46)), sp(37, 46)),
        ],
        sp(5, 47),
    );
    let d = decl("Foo", DeclKind::Struct, vec![attr]);
    let code = reflect_message_impl(&d).unwrap();
    assert!(code.contains("SECOND.get_message_by_name(\"pkg.New\")"));
    assert!(!code.contains("FIRST"));
    assert!(!code.contains("pkg.Old"));
}

#[test]
fn arguments_merge_across_attributes() {
    let first = reflect_attr(
        vec![nv("file_descriptor", str_lit("FD", sp(10, 14)), sp(10, 14))],
        sp(5, 15),
    );
    let second = reflect_attr(
        vec![nv("message_name", str_lit("pkg.Foo", sp(20, 29)), sp(20, 29))],
        sp(16, 30),
    );
    let d = decl("Foo", DeclKind::Struct, vec![first, second]);
    let code = reflect_message_impl(&d).unwrap();
    assert!(code.contains("FD.get_message_by_name(\"pkg.Foo\")"));
}

#[test]
fn missing_argument_points_at_combined_span() {
    let first = reflect_attr(vec![], sp(10, 20));
    let second = reflect_attr(vec![], sp(30, 40));
    let d = decl("Foo", DeclKind::Struct, vec![first, second]);
    let err = reflect_message_impl(&d).unwrap_err();
    assert_eq!(
        err,
        GenError::MissingArgument {
            name: ArgName::FileDescriptor,
            span: sp(10, 40),
        }
    );
}

#[test]
fn expression_contents_are_reparsed_not_copied() {
    let attr = reflect_attr(
        vec![
            nv("file_descriptor", str_lit("a+b", sp(10, 15)), sp(10, 15)),
            nv("message_name", str_lit("pkg.Foo", sp(16, 25)), sp(16, 25)),
        ],
        sp(5, 26),
    );
    let d = decl("Foo", DeclKind::Struct, vec![attr]);
    let code = reflect_message_impl(&d).unwrap();
    assert!(code.contains("{ a + b.get_message_by_name(\"pkg.Foo\")"));
}

#[test]
fn function_call_expression_is_accepted() {
    let attr = reflect_attr(
        vec![
            nv("file_descriptor", str_lit("load_descriptors()", sp(10, 30)), sp(10, 30)),
            nv("message_name", str_lit("pkg.Foo", sp(31, 40)), sp(31, 40)),
        ],
        sp(5, 41),
    );
    let d = decl("Foo", DeclKind::Struct, vec![attr]);
    let code = reflect_message_impl(&d).unwrap();
    assert!(code.contains("load_descriptors ().get_message_by_name(\"pkg.Foo\")"));
}

#[test]
fn message_name_passes_any_literal_through() {
    let attr = reflect_attr(
        vec![
            nv("file_descriptor", str_lit("FD", sp(10, 14)), sp(10, 14)),
            nv("message_name", int_lit("42", sp(15, 17)), sp(15, 17)),
        ],
        sp(5, 18),
    );
    let d = decl("Foo", DeclKind::Struct, vec![attr]);
    let code = reflect_message_impl(&d).unwrap();
    assert!(code.contains("FD.get_message_by_name(42)"));
}
