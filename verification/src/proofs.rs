//! What holds of the processor and of the operations it yields, for every
//! declaration.

use vstd::prelude::*;
use crate::arguments::{arguments_outcome, RequestModel};
use crate::emit::expansion;
use crate::error::{Error, ErrorKind};
use crate::operation::OperationModel;
use crate::processor::{
    accepted_before, annotation_outcome, capabilities_outcome, capability_of, clean_before,
    first_failure_is_unique, first_offence_is_unique, is_first_failure, is_first_offence,
    offence, offends, operation_for, operations_before, outcome, path_fault,
    requested_operations, Capability,
};
use crate::source::{
    AnnotationForm, AnnotationModel, Declaration, DeclarationKind, DeclarationModel,
};

verus! {

/// Where some request up to `n` is refused, one of them is the first.
pub proof fn first_offence_exists(requests: Seq<RequestModel>, n: int) -> (first: int)
    requires
        0 <= n < requests.len(),
        offends(requests, n),
    ensures
        0 <= first <= n,
        is_first_offence(requests, first),
    decreases n,
{
    if clean_before(requests, n) {
        n
    } else {
        let m = choose|m: int| 0 <= m < n && offends(requests, m);
        first_offence_exists(requests, m)
    }
}

/// Where some annotation up to `n` fails, one of them is the first.
pub proof fn first_failure_exists(ast: DeclarationModel, n: int) -> (first: int)
    requires
        0 <= n < ast.annotations.len(),
        annotation_outcome(ast, ast.annotations[n]) is Err,
    ensures
        0 <= first <= n,
        is_first_failure(ast, first),
    decreases n,
{
    if accepted_before(ast, n) {
        n
    } else {
        let m = choose|m: int|
            0 <= m < n && !((#[trigger] annotation_outcome(ast, ast.annotations[m])) is Ok);
        first_failure_exists(ast, m)
    }
}

/// The first request that is refused decides what a list of requests
/// gives: its failure, at its position.
pub proof fn first_offence_decides(
    owner: Seq<char>,
    variants: Seq<Seq<char>>,
    requests: Seq<RequestModel>,
    i: int,
)
    requires
        is_first_offence(requests, i),
    ensures
        capabilities_outcome(owner, variants, requests) == Err::<Seq<OperationModel>, Error>(
            offence(requests, i),
        ),
{
    assert(!clean_before(requests, requests.len() as int));
    first_offence_is_unique(requests, i, choose|c: int| is_first_offence(requests, c));
}

/// The first annotation that fails decides what the processor gives: that
/// annotation's failure, and no operation of any annotation.
pub proof fn first_failure_decides(ast: DeclarationModel, i: int)
    requires
        is_first_failure(ast, i),
    ensures
        outcome(ast) == Err::<Seq<OperationModel>, Error>(
            annotation_outcome(ast, ast.annotations[i])->Err_0,
        ),
{
    assert(!accepted_before(ast, ast.annotations.len() as int));
    first_failure_is_unique(ast, i, choose|c: int| is_first_failure(ast, c));
}

/// A declaration with an annotation that fails gives no operation at all:
/// the processor fails, with the failure of the first such annotation.
pub proof fn any_failure_refuses_all(ast: DeclarationModel, n: int) -> (first: int)
    requires
        0 <= n < ast.annotations.len(),
        annotation_outcome(ast, ast.annotations[n]) is Err,
    ensures
        0 <= first <= n,
        is_first_failure(ast, first),
        outcome(ast) == Err::<Seq<OperationModel>, Error>(
            annotation_outcome(ast, ast.annotations[first])->Err_0,
        ),
{
    let first = first_failure_exists(ast, n);
    first_failure_decides(ast, first);
    first
}

/// A declaration whose annotations are all accepted gives the operations
/// of all of them, those of an earlier annotation before those of a later
/// one.
pub proof fn accepted_annotations_give_all_operations(ast: DeclarationModel, n: int)
    requires
        0 < n <= ast.annotations.len(),
        accepted_before(ast, ast.annotations.len() as int),
    ensures
        outcome(ast) == Ok::<Seq<OperationModel>, Error>(
            operations_before(ast, ast.annotations.len() as int),
        ),
        operations_before(ast, n) == operations_before(ast, n - 1) + annotation_outcome(
            ast,
            ast.annotations[n - 1],
        )->Ok_0,
{
}

/// Every operation that the first `n` annotations give is the operation of
/// some capability for the declared type and its alternatives.
pub proof fn operations_stem_from_capabilities(ast: DeclarationModel, n: int, i: int) -> (capability:
    Capability)
    requires
        0 <= n <= ast.annotations.len(),
        accepted_before(ast, n),
        0 <= i < operations_before(ast, n).len(),
    ensures
        operations_before(ast, n)[i] == operation_for(ast.name, ast.variants, capability),
    decreases n,
{
    let earlier = operations_before(ast, n - 1);
    let annotation = ast.annotations[n - 1];
    assert(annotation_outcome(ast, annotation) is Ok);
    if i < earlier.len() {
        assert(accepted_before(ast, n - 1));
        operations_stem_from_capabilities(ast, n - 1, i)
    } else {
        let requests = arguments_outcome(annotation.arguments)->Ok_0;
        assert(annotation_outcome(ast, annotation) == capabilities_outcome(
            ast.name,
            ast.variants,
            requests,
        ));
        capability_of(requests[i - earlier.len()].name).unwrap()
    }
}

/// Whatever the declaration, a count operation that the processor gives
/// for it returns the number of its alternatives.
pub proof fn count_operation_counts_alternatives(ast: DeclarationModel, i: int)
    requires
        outcome(ast) is Ok,
        0 <= i < outcome(ast)->Ok_0.len(),
        outcome(ast)->Ok_0[i] is VariantCount,
    ensures
        outcome(ast)->Ok_0[i].count_result() == Some(ast.variants.len()),
{
    operations_stem_from_capabilities(ast, ast.annotations.len() as int, i);
}

/// Whatever the declaration, an array operation that the processor gives
/// for it returns, asked for `n` alternatives, the first `n` in declaration
/// order where there are that many, and fails where there are fewer.
pub proof fn array_operation_gives_leading_alternatives(ast: DeclarationModel, i: int, n: nat)
    requires
        outcome(ast) is Ok,
        0 <= i < outcome(ast)->Ok_0.len(),
        outcome(ast)->Ok_0[i] is VariantArray,
    ensures
        n <= ast.variants.len() ==> {
            let items = outcome(ast)->Ok_0[i].array_result(n)->Some_0->Ok_0;
            &&& outcome(ast)->Ok_0[i].array_result(n) == Some(
                Ok::<Seq<Seq<char>>, ErrorKind>(items),
            )
            &&& items.len() == n
            &&& forall|k: int| 0 <= k < n ==> items[k] == ast.variants[k]
        },
        n > ast.variants.len() ==> outcome(ast)->Ok_0[i].array_result(n) == Some(
            Err::<Seq<Seq<char>>, ErrorKind>(ErrorKind::OversizedArrayRequest),
        ),
{
    operations_stem_from_capabilities(ast, ast.annotations.len() as int, i);
}

/// Whether the annotation is the directive, well-formed, on an enumeration,
/// with an argument list that reads as `requests`.
pub open spec fn requests_of(
    ast: DeclarationModel,
    annotation: AnnotationModel,
    requests: Seq<RequestModel>,
) -> bool {
    &&& annotation.form == AnnotationForm::List
    &&& path_fault(annotation) is None
    &&& annotation.segments[0].name == "enum_functions"@
    &&& ast.kind == DeclarationKind::Enumeration
    &&& arguments_outcome(annotation.arguments) == Ok::<Seq<RequestModel>, Error>(requests)
}

/// A directive in which the `i`-th request asks for what the `j`-th before
/// it asked, and every request up to the `i`-th is recognized, is refused
/// as a duplicate, whichever capability it is.
pub proof fn repeated_capability_fails(
    ast: DeclarationModel,
    annotation: AnnotationModel,
    requests: Seq<RequestModel>,
    j: int,
    i: int,
)
    requires
        requests_of(ast, annotation, requests),
        0 <= j < i < requests.len(),
        requests[j].name == requests[i].name,
        forall|k: int| 0 <= k <= i ==> (#[trigger] capability_of(requests[k].name)) is Some,
    ensures
        annotation_outcome(ast, annotation) is Err,
        annotation_outcome(ast, annotation)->Err_0.kind == ErrorKind::DuplicateCapability,
{
    assert(offends(requests, i));
    let first = first_offence_exists(requests, i);
    assert(capability_of(requests[first].name) is Some);
    first_offence_decides(ast.name, ast.variants, requests, first);
}

/// A directive in which the first request that is refused bears an
/// unrecognized name is refused as unknown, at the position of that name.
pub proof fn unknown_capability_fails(
    ast: DeclarationModel,
    annotation: AnnotationModel,
    requests: Seq<RequestModel>,
    i: int,
)
    requires
        requests_of(ast, annotation, requests),
        0 <= i < requests.len(),
        clean_before(requests, i),
        capability_of(requests[i].name) is None,
    ensures
        annotation_outcome(ast, annotation) == Err::<Seq<OperationModel>, Error>(
            Error { kind: ErrorKind::UnknownCapability, position: requests[i].position },
        ),
{
    first_offence_decides(ast.name, ast.variants, requests, i);
}

/// A directive in which no request is refused gives one operation for
/// each request, in the order of the requests.
pub proof fn clean_directive_gives_every_operation(
    ast: DeclarationModel,
    annotation: AnnotationModel,
    requests: Seq<RequestModel>,
)
    requires
        requests_of(ast, annotation, requests),
        clean_before(requests, requests.len() as int),
    ensures
        annotation_outcome(ast, annotation) == Ok::<Seq<OperationModel>, Error>(
            requested_operations(ast.name, ast.variants, requests),
        ),
{
}

/// A declaration with one annotation gives what that annotation gives.
pub proof fn single_annotation_decides(ast: DeclarationModel)
    requires
        ast.annotations.len() == 1,
    ensures
        outcome(ast) == annotation_outcome(ast, ast.annotations[0]),
{
    let only = annotation_outcome(ast, ast.annotations[0]);
    if only is Ok {
        assert(accepted_before(ast, 1));
        assert(operations_before(ast, 0) =~= Seq::<OperationModel>::empty());
        assert(operations_before(ast, 1) =~= only->Ok_0);
    } else {
        assert(is_first_failure(ast, 0));
        first_failure_decides(ast, 0);
    }
}

/// The directive, well-formed and rightly named, on a declaration that is
/// no enumeration: refused, at the position of the directive's name.
pub proof fn directive_on_non_enum_fails(ast: DeclarationModel, annotation: AnnotationModel)
    requires
        annotation.form == AnnotationForm::List,
        path_fault(annotation) is None,
        annotation.segments[0].name == "enum_functions"@,
        ast.kind != DeclarationKind::Enumeration,
    ensures
        annotation_outcome(ast, annotation) == Err::<Seq<OperationModel>, Error>(
            Error { kind: ErrorKind::ExpectedEnum, position: annotation.segments[0].position },
        ),
{
}

/// An annotation with a well-formed path and another name than the
/// directive's is refused as unknown, at the position of that name.
pub proof fn foreign_directive_fails(ast: DeclarationModel, annotation: AnnotationModel)
    requires
        annotation.form == AnnotationForm::List,
        path_fault(annotation) is None,
        annotation.segments[0].name != "enum_functions"@,
    ensures
        annotation_outcome(ast, annotation) == Err::<Seq<OperationModel>, Error>(
            Error { kind: ErrorKind::UnknownDirective, position: annotation.segments[0].position },
        ),
{
}

/// What expanding gives depends on nothing but what the declaration
/// holds: two declarations with the same names, kinds, positions and
/// tokens give the same text, character for character, or the same
/// failure.
pub proof fn expansion_is_determined(first: Declaration, second: Declaration)
    requires
        first@ == second@,
    ensures
        expansion(first@) == expansion(second@),
        outcome(first@) == outcome(second@),
{
}

} // verus!
