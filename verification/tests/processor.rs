use typeful::arguments::{parse_arguments, Request};
use typeful::emit::{expand, render};
use typeful::error::{Error, ErrorKind, PathFault};
use typeful::operation::Operation;
use typeful::processor::{
    generate, impl_enum_functions, process_annotation, recognize, Capability,
};
use typeful::source::{
    Annotation, AnnotationForm, ArgumentToken, Declaration, DeclarationKind, PathSegment,
    Position, TokenKind,
};

fn at(line: usize, column: usize) -> Position {
    Position { line, column }
}

fn ident(text: &str, column: usize) -> ArgumentToken {
    ArgumentToken { kind: TokenKind::Identifier, text: text.to_string(), position: at(1, column) }
}

fn comma(column: usize) -> ArgumentToken {
    ArgumentToken { kind: TokenKind::Comma, text: String::new(), position: at(1, column) }
}

fn other(column: usize) -> ArgumentToken {
    ArgumentToken { kind: TokenKind::Other, text: String::new(), position: at(1, column) }
}

/// The tokens of `a, b, c`: each word at column 20 + 10 * i, each comma
/// five columns after the word before it.
fn list(words: &[&str]) -> Vec<ArgumentToken> {
    let mut tokens = Vec::new();
    for (i, word) in words.iter().enumerate() {
        if i > 0 {
            tokens.push(comma(15 + 10 * i));
        }
        tokens.push(ident(word, 20 + 10 * i));
    }
    tokens
}

fn directive(name: &str, arguments: Vec<ArgumentToken>) -> Annotation {
    Annotation {
        form: AnnotationForm::List,
        position: at(1, 2),
        leading_separator: false,
        segments: vec![PathSegment {
            name: name.to_string(),
            has_arguments: false,
            position: at(1, 2),
        }],
        delimiter: at(1, 16),
        arguments,
    }
}

fn enumeration(variants: &[&str], annotations: Vec<Annotation>) -> Declaration {
    Declaration {
        name: "TestEnum".to_string(),
        kind: DeclarationKind::Enumeration,
        variants: variants.iter().map(|v| v.to_string()).collect(),
        annotations,
    }
}

fn strings(items: &[&str]) -> Vec<String> {
    items.iter().map(|v| v.to_string()).collect()
}

fn count_op(count: usize) -> Operation {
    Operation::VariantCount { owner: "TestEnum".to_string(), count }
}

fn array_op(variants: &[&str]) -> Operation {
    Operation::VariantArray { owner: "TestEnum".to_string(), variants: strings(variants) }
}

#[test]
fn count_and_array_for_three_alternatives() {
    let ast = enumeration(
        &["A", "B", "C"],
        vec![directive("enum_functions", list(&["variant_count", "variant_array"]))],
    );
    let operations = impl_enum_functions(&ast).unwrap();
    assert_eq!(operations, vec![count_op(3), array_op(&["A", "B", "C"])]);
    assert_eq!(operations[0].variant_count(), Some(3));
    assert_eq!(operations[1].variant_array(3), Some(Ok(strings(&["A", "B", "C"]))));
    assert_eq!(operations[1].variant_array(5), Some(Err(ErrorKind::OversizedArrayRequest)));
}

#[test]
fn repeated_array_request_gives_nothing() {
    let ast = enumeration(
        &["A", "B", "C"],
        vec![directive("enum_functions", list(&["variant_array", "variant_array"]))],
    );
    let expected = Error { kind: ErrorKind::DuplicateCapability, position: at(1, 30) };
    assert_eq!(impl_enum_functions(&ast), Err(expected));
    assert_eq!(expand(&ast), Err(expected));
}

#[test]
fn repeated_count_request_fails() {
    let ast = enumeration(
        &["A"],
        vec![directive(
            "enum_functions",
            list(&["variant_count", "variant_array", "variant_count"]),
        )],
    );
    assert_eq!(
        impl_enum_functions(&ast),
        Err(Error { kind: ErrorKind::DuplicateCapability, position: at(1, 40) })
    );
}

#[test]
fn other_directive_is_unknown() {
    let ast = enumeration(
        &["A", "B", "C"],
        vec![directive("other_directive", list(&["variant_count"]))],
    );
    assert_eq!(
        impl_enum_functions(&ast),
        Err(Error { kind: ErrorKind::UnknownDirective, position: at(1, 2) })
    );
}

#[test]
fn unknown_capability_names_its_position() {
    let ast = enumeration(
        &["A", "B"],
        vec![directive("enum_functions", list(&["variant_count", "variant_names"]))],
    );
    assert_eq!(
        impl_enum_functions(&ast),
        Err(Error { kind: ErrorKind::UnknownCapability, position: at(1, 30) })
    );
}

#[test]
fn unknown_capability_before_a_repeat_comes_first() {
    let ast = enumeration(
        &["A", "B"],
        vec![directive(
            "enum_functions",
            list(&["variant_array", "bogus", "variant_array"]),
        )],
    );
    assert_eq!(
        impl_enum_functions(&ast),
        Err(Error { kind: ErrorKind::UnknownCapability, position: at(1, 30) })
    );
}

#[test]
fn directive_on_a_structure_expects_an_enum() {
    let mut ast = enumeration(&[], vec![directive("enum_functions", list(&["variant_count"]))]);
    ast.kind = DeclarationKind::Structure;
    assert_eq!(
        impl_enum_functions(&ast),
        Err(Error { kind: ErrorKind::ExpectedEnum, position: at(1, 2) })
    );
    ast.kind = DeclarationKind::Union;
    assert_eq!(
        impl_enum_functions(&ast),
        Err(Error { kind: ErrorKind::ExpectedEnum, position: at(1, 2) })
    );
}

#[test]
fn unknown_directive_is_told_before_the_kind() {
    let mut ast = enumeration(&[], vec![directive("repr", list(&["C"]))]);
    ast.kind = DeclarationKind::Structure;
    assert_eq!(
        impl_enum_functions(&ast),
        Err(Error { kind: ErrorKind::UnknownDirective, position: at(1, 2) })
    );
}

#[test]
fn annotation_without_a_list_is_malformed() {
    let mut word = directive("enum_functions", Vec::new());
    word.form = AnnotationForm::Word;
    word.position = at(7, 3);
    let ast = enumeration(&["A"], vec![word.clone()]);
    let expected = Error { kind: ErrorKind::MalformedAnnotation, position: at(7, 3) };
    assert_eq!(impl_enum_functions(&ast), Err(expected));
    word.form = AnnotationForm::NameValue;
    let ast = enumeration(&["A"], vec![word]);
    assert_eq!(impl_enum_functions(&ast), Err(expected));
}

#[test]
fn leading_separator_is_an_invalid_path() {
    let mut annotation = directive("enum_functions", list(&["variant_count"]));
    annotation.leading_separator = true;
    let ast = enumeration(&["A"], vec![annotation]);
    assert_eq!(
        impl_enum_functions(&ast),
        Err(Error {
            kind: ErrorKind::InvalidDirectivePath(PathFault::LeadingSeparator),
            position: at(1, 16),
        })
    );
}

#[test]
fn two_segments_are_an_invalid_path() {
    let mut annotation = directive("enum_functions", list(&["variant_count"]));
    annotation.segments.insert(
        0,
        PathSegment { name: "typeful".to_string(), has_arguments: false, position: at(1, 0) },
    );
    let ast = enumeration(&["A"], vec![annotation]);
    assert_eq!(
        impl_enum_functions(&ast),
        Err(Error {
            kind: ErrorKind::InvalidDirectivePath(PathFault::SegmentCount),
            position: at(1, 16),
        })
    );
}

#[test]
fn no_segment_is_an_invalid_path() {
    let mut annotation = directive("enum_functions", list(&["variant_count"]));
    annotation.segments.clear();
    let ast = enumeration(&["A"], vec![annotation]);
    assert_eq!(
        impl_enum_functions(&ast),
        Err(Error {
            kind: ErrorKind::InvalidDirectivePath(PathFault::SegmentCount),
            position: at(1, 16),
        })
    );
}

#[test]
fn path_arguments_are_an_invalid_path() {
    let mut annotation = directive("enum_functions", list(&["variant_count"]));
    annotation.segments[0].has_arguments = true;
    let ast = enumeration(&["A"], vec![annotation]);
    assert_eq!(
        impl_enum_functions(&ast),
        Err(Error {
            kind: ErrorKind::InvalidDirectivePath(PathFault::Arguments),
            position: at(1, 16),
        })
    );
}

#[test]
fn leading_separator_is_told_before_the_segment_count() {
    let mut annotation = directive("enum_functions", list(&["variant_count"]));
    annotation.leading_separator = true;
    annotation.segments.clear();
    let ast = enumeration(&["A"], vec![annotation]);
    assert_eq!(
        impl_enum_functions(&ast).unwrap_err().kind,
        ErrorKind::InvalidDirectivePath(PathFault::LeadingSeparator)
    );
}

#[test]
fn malformed_list_fails_at_the_first_misfit() {
    let tokens = vec![ident("variant_count", 20), ident("variant_array", 30)];
    let ast = enumeration(&["A"], vec![directive("enum_functions", tokens)]);
    assert_eq!(
        impl_enum_functions(&ast),
        Err(Error { kind: ErrorKind::MalformedArgumentList, position: at(1, 30) })
    );
}

#[test]
fn malformed_list_is_told_before_the_capabilities() {
    let tokens = vec![ident("bogus", 20), comma(25), other(30)];
    let ast = enumeration(&["A"], vec![directive("enum_functions", tokens)]);
    assert_eq!(
        impl_enum_functions(&ast),
        Err(Error { kind: ErrorKind::MalformedArgumentList, position: at(1, 30) })
    );
}

#[test]
fn no_annotation_gives_no_operation() {
    let ast = enumeration(&["A", "B"], Vec::new());
    assert_eq!(impl_enum_functions(&ast), Ok(Vec::new()));
    assert_eq!(expand(&ast), Ok(String::new()));
}

#[test]
fn empty_list_gives_no_operation() {
    let ast = enumeration(&["A", "B"], vec![directive("enum_functions", Vec::new())]);
    assert_eq!(impl_enum_functions(&ast), Ok(Vec::new()));
}

#[test]
fn operations_keep_the_order_of_the_requests() {
    let ast = enumeration(
        &["A", "B"],
        vec![directive("enum_functions", list(&["variant_array", "variant_count"]))],
    );
    assert_eq!(impl_enum_functions(&ast), Ok(vec![array_op(&["A", "B"]), count_op(2)]));
}

#[test]
fn annotations_are_handled_one_after_the_other() {
    let ast = enumeration(
        &["A", "B"],
        vec![
            directive("enum_functions", list(&["variant_count"])),
            directive("enum_functions", list(&["variant_array", "variant_count"])),
        ],
    );
    assert_eq!(
        impl_enum_functions(&ast),
        Ok(vec![count_op(2), array_op(&["A", "B"]), count_op(2)])
    );
}

#[test]
fn a_later_failure_leaves_nothing_of_the_earlier_annotations() {
    let ast = enumeration(
        &["A", "B"],
        vec![
            directive("enum_functions", list(&["variant_count"])),
            directive("derive_more", list(&["variant_count"])),
        ],
    );
    assert_eq!(
        impl_enum_functions(&ast),
        Err(Error { kind: ErrorKind::UnknownDirective, position: at(1, 2) })
    );
}

#[test]
fn the_first_failing_annotation_decides() {
    let mut word = directive("enum_functions", Vec::new());
    word.form = AnnotationForm::Word;
    let ast = enumeration(
        &["A", "B"],
        vec![directive("enum_functions", list(&["nothing"])), word],
    );
    assert_eq!(
        impl_enum_functions(&ast),
        Err(Error { kind: ErrorKind::UnknownCapability, position: at(1, 20) })
    );
}

#[test]
fn process_annotation_handles_one_annotation() {
    let ast = enumeration(&["A", "B", "C", "D"], Vec::new());
    let annotation = directive("enum_functions", list(&["variant_count"]));
    assert_eq!(process_annotation(&ast, &annotation), Ok(vec![count_op(4)]));
}

#[test]
fn generate_makes_one_operation_for_each_request() {
    let requests = vec![
        Request { name: "variant_array".to_string(), position: at(2, 1) },
        Request { name: "variant_count".to_string(), position: at(2, 9) },
    ];
    let owner = "TestEnum".to_string();
    assert_eq!(
        generate(&owner, &strings(&["X"]), &requests),
        Ok(vec![array_op(&["X"]), count_op(1)])
    );
}

#[test]
fn recognize_knows_two_names() {
    assert_eq!(recognize(&"variant_array".to_string()), Some(Capability::VariantArray));
    assert_eq!(recognize(&"variant_count".to_string()), Some(Capability::VariantCount));
    assert_eq!(recognize(&"variant_counts".to_string()), None);
    assert_eq!(recognize(&"Variant_Count".to_string()), None);
    assert_eq!(recognize(&String::new()), None);
}

#[test]
fn arguments_empty_list() {
    assert_eq!(parse_arguments(&Vec::new()), Ok(Vec::new()));
}

#[test]
fn arguments_with_and_without_trailing_comma() {
    let expected = vec![
        Request { name: "a".to_string(), position: at(1, 20) },
        Request { name: "b".to_string(), position: at(1, 30) },
    ];
    let mut tokens = list(&["a", "b"]);
    assert_eq!(parse_arguments(&tokens), Ok(expected.clone()));
    tokens.push(comma(35));
    assert_eq!(parse_arguments(&tokens), Ok(expected));
}

#[test]
fn arguments_leading_comma_fails() {
    let tokens = vec![comma(3), ident("a", 5)];
    assert_eq!(
        parse_arguments(&tokens),
        Err(Error { kind: ErrorKind::MalformedArgumentList, position: at(1, 3) })
    );
}

#[test]
fn arguments_double_comma_fails_at_the_second() {
    let tokens = vec![ident("a", 1), comma(2), comma(3), ident("b", 4)];
    assert_eq!(
        parse_arguments(&tokens),
        Err(Error { kind: ErrorKind::MalformedArgumentList, position: at(1, 3) })
    );
}

#[test]
fn arguments_foreign_token_fails() {
    let tokens = vec![ident("a", 1), other(2)];
    assert_eq!(
        parse_arguments(&tokens),
        Err(Error { kind: ErrorKind::MalformedArgumentList, position: at(1, 2) })
    );
    let tokens = vec![other(9)];
    assert_eq!(
        parse_arguments(&tokens),
        Err(Error { kind: ErrorKind::MalformedArgumentList, position: at(1, 9) })
    );
}

#[test]
fn array_of_every_length_up_to_the_count() {
    let op = array_op(&["A", "B", "C"]);
    assert_eq!(op.variant_array(0), Some(Ok(Vec::new())));
    assert_eq!(op.variant_array(1), Some(Ok(strings(&["A"]))));
    assert_eq!(op.variant_array(2), Some(Ok(strings(&["A", "B"]))));
    assert_eq!(op.variant_array(3), Some(Ok(strings(&["A", "B", "C"]))));
    assert_eq!(op.variant_array(4), Some(Err(ErrorKind::OversizedArrayRequest)));
    assert_eq!(op.variant_array(usize::MAX), Some(Err(ErrorKind::OversizedArrayRequest)));
}

#[test]
fn array_of_an_enum_without_alternatives() {
    let op = array_op(&[]);
    assert_eq!(op.variant_array(0), Some(Ok(Vec::new())));
    assert_eq!(op.variant_array(1), Some(Err(ErrorKind::OversizedArrayRequest)));
}

#[test]
fn each_operation_answers_only_its_own_call() {
    assert_eq!(count_op(7).variant_count(), Some(7));
    assert_eq!(count_op(7).variant_array(0), None);
    assert_eq!(array_op(&["A"]).variant_count(), None);
}

#[test]
fn count_definition_text() {
    assert_eq!(
        count_op(3).definition(),
        "impl TestEnum { const fn variant_count() -> usize { 3usize } }\n"
    );
    assert_eq!(
        count_op(0).definition(),
        "impl TestEnum { const fn variant_count() -> usize { 0usize } }\n"
    );
    assert_eq!(
        count_op(1205).definition(),
        "impl TestEnum { const fn variant_count() -> usize { 1205usize } }\n"
    );
}

#[test]
fn array_definition_text() {
    let expected = "impl TestEnum { const fn variant_array<const N: usize>() -> [Self; N] { \
        if N > 3usize { panic!(\"requested variant array is too large\") } \
        let full_array = [Self::A, Self::B, Self::C]; \
        let mut array = [full_array[0]; N]; let mut i = 1; \
        while i < N { array[i] = full_array[i]; i += 1; } array } }\n";
    assert_eq!(array_op(&["A", "B", "C"]).definition(), expected);
}

#[test]
fn array_definition_text_for_one_and_no_alternative() {
    let one = array_op(&["Only"]).definition();
    assert!(one.contains("if N > 1usize {"));
    assert!(one.contains("let full_array = [Self::Only];"));
    let none = array_op(&[]).definition();
    assert!(none.contains("if N > 0usize {"));
    assert!(none.contains("let full_array = [];"));
}

#[test]
fn render_joins_the_definitions() {
    let operations = vec![count_op(2), array_op(&["A", "B"])];
    let mut expected = operations[0].definition();
    expected.push_str(&operations[1].definition());
    assert_eq!(render(&operations), expected);
    assert_eq!(render(&Vec::new()), "");
}

#[test]
fn expand_gives_the_text_of_the_operations() {
    let ast = enumeration(
        &["A", "B", "C"],
        vec![directive("enum_functions", list(&["variant_count"]))],
    );
    assert_eq!(
        expand(&ast),
        Ok("impl TestEnum { const fn variant_count() -> usize { 3usize } }\n".to_string())
    );
}

#[test]
fn expanding_twice_gives_the_same_text() {
    let ast = enumeration(
        &["A", "B", "C"],
        vec![directive("enum_functions", list(&["variant_array", "variant_count"]))],
    );
    let first = expand(&ast);
    let second = expand(&ast.clone());
    assert!(first.is_ok());
    assert_eq!(first, second);
}

#[test]
fn expanded_text_is_lexed_as_rust() {
    let ast = enumeration(
        &["A", "B", "C"],
        vec![directive("enum_functions", list(&["variant_array", "variant_count"]))],
    );
    let text = expand(&ast).unwrap();
    let file = syn::parse_str::<proc_macro2::TokenStream>(&text);
    assert!(file.is_ok());
}

#[test]
fn messages_of_every_kind() {
    let p = at(0, 0);
    let message = |kind: ErrorKind| Error { kind, position: p }.message();
    assert_eq!(message(ErrorKind::MalformedAnnotation), "expected a parenthesized argument list");
    assert_eq!(
        message(ErrorKind::InvalidDirectivePath(PathFault::LeadingSeparator)),
        "unexpected leading double colon"
    );
    assert_eq!(
        message(ErrorKind::InvalidDirectivePath(PathFault::SegmentCount)),
        "unexpected double colon in path"
    );
    assert_eq!(
        message(ErrorKind::InvalidDirectivePath(PathFault::Arguments)),
        "unexpected path arguments"
    );
    assert_eq!(message(ErrorKind::UnknownDirective), "unknown attribute");
    assert_eq!(message(ErrorKind::ExpectedEnum), "expected enum");
    assert_eq!(
        message(ErrorKind::MalformedArgumentList),
        "expected comma-separated identifiers"
    );
    assert_eq!(message(ErrorKind::DuplicateCapability), "duplicated attribute");
    assert_eq!(message(ErrorKind::UnknownCapability), "unknown attribute");
    assert_eq!(
        ErrorKind::OversizedArrayRequest.message(),
        "requested variant array is too large"
    );
}
