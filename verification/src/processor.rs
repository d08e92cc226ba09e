//! The processor: from a declaration and its directives to the operations
//! they request, or to the first failure.

use vstd::prelude::*;
use vstd::string::StringExecFns;
use crate::arguments::{
    arguments_outcome, parse_arguments, request_models, Request, RequestModel,
};
use crate::error::{Error, ErrorKind, PathFault};
use crate::operation::{operation_models, Operation, OperationModel};
use crate::source::{
    names, Annotation, AnnotationForm, AnnotationModel, Declaration, DeclarationKind,
    DeclarationModel,
};

verus! {

/// The capabilities that a directive can request.
#[derive(Clone, Copy, Debug, PartialEq, Eq, Structural)]
pub enum Capability {
    VariantArray,
    VariantCount,
}

/// The capability that a name stands for, if any.
pub open spec fn capability_of(name: Seq<char>) -> Option<Capability> {
    if name == "variant_array"@ {
        Some(Capability::VariantArray)
    } else if name == "variant_count"@ {
        Some(Capability::VariantCount)
    } else {
        None
    }
}

/// Whether the request at `i` is refused: its name is not recognized, or an
/// earlier request asks for the same capability.
pub open spec fn offends(requests: Seq<RequestModel>, i: int) -> bool {
    capability_of(requests[i].name) is None || exists|j: int|
        0 <= j < i && #[trigger] capability_of(requests[j].name) == capability_of(requests[i].name)
}

/// Whether no request before `n` is refused.
pub open spec fn clean_before(requests: Seq<RequestModel>, n: int) -> bool {
    forall|j: int| 0 <= j < n ==> !offends(requests, j)
}

/// Whether `i` is the first request that is refused.
pub open spec fn is_first_offence(requests: Seq<RequestModel>, i: int) -> bool {
    0 <= i < requests.len() && offends(requests, i) && clean_before(requests, i)
}

/// The failure that a refused request gives.
pub open spec fn offence(requests: Seq<RequestModel>, i: int) -> Error {
    Error {
        kind: if capability_of(requests[i].name) is None {
            ErrorKind::UnknownCapability
        } else {
            ErrorKind::DuplicateCapability
        },
        position: requests[i].position,
    }
}

/// The operation that a capability brings forth for a type.
pub open spec fn operation_for(
    owner: Seq<char>,
    variants: Seq<Seq<char>>,
    capability: Capability,
) -> OperationModel {
    match capability {
        Capability::VariantArray => OperationModel::VariantArray { owner, variants },
        Capability::VariantCount => OperationModel::VariantCount { owner, count: variants.len() },
    }
}

/// One operation for each request, in the order of the requests.
pub open spec fn requested_operations(
    owner: Seq<char>,
    variants: Seq<Seq<char>>,
    requests: Seq<RequestModel>,
) -> Seq<OperationModel> {
    Seq::new(
        requests.len(),
        |i: int| operation_for(owner, variants, capability_of(requests[i].name).unwrap()),
    )
}

/// What a list of requests gives: one operation each, or the failure of the
/// first request that is refused.
pub open spec fn capabilities_outcome(
    owner: Seq<char>,
    variants: Seq<Seq<char>>,
    requests: Seq<RequestModel>,
) -> Result<Seq<OperationModel>, Error> {
    if clean_before(requests, requests.len() as int) {
        Ok(requested_operations(owner, variants, requests))
    } else {
        Err(offence(requests, choose|i: int| is_first_offence(requests, i)))
    }
}

/// The directive's path, where the annotation has the list form: the fault
/// that refuses it, if any.
pub open spec fn path_fault(annotation: AnnotationModel) -> Option<PathFault> {
    if annotation.leading_separator {
        Some(PathFault::LeadingSeparator)
    } else if annotation.segments.len() != 1 {
        Some(PathFault::SegmentCount)
    } else if annotation.segments[0].has_arguments {
        Some(PathFault::Arguments)
    } else {
        None
    }
}

/// What one annotation gives on a declaration: the operations it requests,
/// or its failure.
pub open spec fn annotation_outcome(ast: DeclarationModel, annotation: AnnotationModel) -> Result<
    Seq<OperationModel>,
    Error,
> {
    if annotation.form != AnnotationForm::List {
        Err(Error { kind: ErrorKind::MalformedAnnotation, position: annotation.position })
    } else if let Some(fault) = path_fault(annotation) {
        Err(Error { kind: ErrorKind::InvalidDirectivePath(fault), position: annotation.delimiter })
    } else if annotation.segments[0].name != "enum_functions"@ {
        Err(Error { kind: ErrorKind::UnknownDirective, position: annotation.segments[0].position })
    } else if ast.kind != DeclarationKind::Enumeration {
        Err(Error { kind: ErrorKind::ExpectedEnum, position: annotation.segments[0].position })
    } else {
        match arguments_outcome(annotation.arguments) {
            Err(e) => Err(e),
            Ok(requests) => capabilities_outcome(ast.name, ast.variants, requests),
        }
    }
}

/// Whether every annotation before `n` is accepted.
pub open spec fn accepted_before(ast: DeclarationModel, n: int) -> bool {
    forall|j: int| 0 <= j < n ==> (#[trigger] annotation_outcome(ast, ast.annotations[j])) is Ok
}

/// Whether `i` is the first annotation that fails.
pub open spec fn is_first_failure(ast: DeclarationModel, i: int) -> bool {
    0 <= i < ast.annotations.len() && annotation_outcome(ast, ast.annotations[i]) is Err
        && accepted_before(ast, i)
}

/// The operations of the first `n` annotations, one after the other.
pub open spec fn operations_before(ast: DeclarationModel, n: int) -> Seq<OperationModel>
    decreases n,
{
    if n <= 0 {
        Seq::empty()
    } else {
        match annotation_outcome(ast, ast.annotations[n - 1]) {
            Ok(operations) => operations_before(ast, n - 1) + operations,
            Err(_) => operations_before(ast, n - 1),
        }
    }
}

/// What the processor gives on a declaration: the operations of all its
/// annotations in order, or the failure of the first annotation that fails.
pub open spec fn outcome(ast: DeclarationModel) -> Result<Seq<OperationModel>, Error> {
    if accepted_before(ast, ast.annotations.len() as int) {
        Ok(operations_before(ast, ast.annotations.len() as int))
    } else {
        let i = choose|i: int| is_first_failure(ast, i);
        Err(annotation_outcome(ast, ast.annotations[i])->Err_0)
    }
}

/// There is at most one first offence.
pub proof fn first_offence_is_unique(requests: Seq<RequestModel>, i: int, j: int)
    requires
        is_first_offence(requests, i),
        is_first_offence(requests, j),
    ensures
        i == j,
{
    if i < j {
        assert(!offends(requests, i));
    } else if j < i {
        assert(!offends(requests, j));
    }
}

/// There is at most one first failure.
pub proof fn first_failure_is_unique(ast: DeclarationModel, i: int, j: int)
    requires
        is_first_failure(ast, i),
        is_first_failure(ast, j),
    ensures
        i == j,
{
    if i < j {
        assert(annotation_outcome(ast, ast.annotations[i]) is Ok);
    } else if j < i {
        assert(annotation_outcome(ast, ast.annotations[j]) is Ok);
    }
}

/// Whether a string holds exactly the given text.
fn holds_text(s: &String, text: &str) -> (same: bool)
    ensures
        same == (s@ == text@),
{
    let owned = String::from_str(text);
    *s == owned
}

/// The capability that a name stands for, if any.
pub fn recognize(name: &String) -> (capability: Option<Capability>)
    ensures
        capability == capability_of(name@),
{
    if holds_text(name, "variant_array") {
        Some(Capability::VariantArray)
    } else if holds_text(name, "variant_count") {
        Some(Capability::VariantCount)
    } else {
        None
    }
}

/// A copy of a list of names.
fn copy_names(items: &Vec<String>) -> (copy: Vec<String>)
    ensures
        names(copy@) == names(items@),
{
    let mut copy: Vec<String> = Vec::new();
    let mut i: usize = 0;
    while i < items.len()
        invariant
            0 <= i <= items.len(),
            copy.len() == i,
            forall|k: int| 0 <= k < i ==> #[trigger] copy[k]@ == items[k]@,
        decreases items.len() - i,
    {
        copy.push(items[i].clone());
        i = i + 1;
    }
    proof {
        assert(names(copy@) =~= names(items@));
    }
    copy
}

/// Makes one operation for each request, in order, for the type `owner`
/// with the alternatives `variants`. Fails at the first request that names
/// no capability or repeats one.
pub fn generate(owner: &String, variants: &Vec<String>, requests: &Vec<Request>) -> (result: Result<
    Vec<Operation>,
    Error,
>)
    ensures
        match result {
            Ok(operations) => capabilities_outcome(
                owner@,
                names(variants@),
                request_models(requests@),
            ) == Ok::<Seq<OperationModel>, Error>(operation_models(operations@)),
            Err(e) => capabilities_outcome(
                owner@,
                names(variants@),
                request_models(requests@),
            ) == Err::<Seq<OperationModel>, Error>(e),
        },
{
    let ghost models = request_models(requests@);
    let ghost wanted = requested_operations(owner@, names(variants@), models);
    let mut operations: Vec<Operation> = Vec::new();
    let mut has_variant_array = false;
    let mut has_variant_count = false;
    let mut i: usize = 0;
    while i < requests.len()
        invariant
            0 <= i <= requests.len(),
            models == request_models(requests@),
            wanted == requested_operations(owner@, names(variants@), models),
            clean_before(models, i as int),
            has_variant_array == (exists|j: int|
                0 <= j < i && #[trigger] capability_of(models[j].name) == Some(
                    Capability::VariantArray,
                )),
            has_variant_count == (exists|j: int|
                0 <= j < i && #[trigger] capability_of(models[j].name) == Some(
                    Capability::VariantCount,
                )),
            operations.len() == i,
            forall|k: int| 0 <= k < i ==> #[trigger] operations[k]@ == wanted[k],
        decreases requests.len() - i,
    {
        let request = &requests[i];
        assert(models[i as int].name == request.name@);
        let capability = recognize(&request.name);
        let refused = match capability {
            None => true,
            Some(Capability::VariantArray) => has_variant_array,
            Some(Capability::VariantCount) => has_variant_count,
        };
        if refused {
            let kind = match capability {
                None => ErrorKind::UnknownCapability,
                Some(_) => ErrorKind::DuplicateCapability,
            };
            proof {
                assert(is_first_offence(models, i as int));
                let c = choose|c: int| is_first_offence(models, c);
                first_offence_is_unique(models, i as int, c);
            }
            return Err(Error { kind, position: request.position });
        }
        match capability {
            Some(Capability::VariantArray) => {
                has_variant_array = true;
                operations.push(
                    Operation::VariantArray { owner: owner.clone(), variants: copy_names(variants) },
                );
            },
            _ => {
                has_variant_count = true;
                operations.push(
                    Operation::VariantCount { owner: owner.clone(), count: variants.len() },
                );
            },
        }
        assert(!offends(models, i as int));
        i = i + 1;
    }
    proof {
        assert(operation_models(operations@) =~= wanted);
    }
    Ok(operations)
}

/// Handles one annotation of a declaration: checks its form, its path, its
/// name and the declaration's kind, reads its argument list and makes the
/// operations that it requests.
pub fn process_annotation(ast: &Declaration, annotation: &Annotation) -> (result: Result<
    Vec<Operation>,
    Error,
>)
    ensures
        match result {
            Ok(operations) => annotation_outcome(ast@, annotation@) == Ok::<
                Seq<OperationModel>,
                Error,
            >(operation_models(operations@)),
            Err(e) => annotation_outcome(ast@, annotation@) == Err::<Seq<OperationModel>, Error>(e),
        },
{
    if annotation.form != AnnotationForm::List {
        return Err(Error { kind: ErrorKind::MalformedAnnotation, position: annotation.position });
    }
    if annotation.leading_separator {
        return Err(
            Error {
                kind: ErrorKind::InvalidDirectivePath(PathFault::LeadingSeparator),
                position: annotation.delimiter,
            },
        );
    }
    if annotation.segments.len() != 1 {
        return Err(
            Error {
                kind: ErrorKind::InvalidDirectivePath(PathFault::SegmentCount),
                position: annotation.delimiter,
            },
        );
    }
    let segment = &annotation.segments[0];
    if segment.has_arguments {
        return Err(
            Error {
                kind: ErrorKind::InvalidDirectivePath(PathFault::Arguments),
                position: annotation.delimiter,
            },
        );
    }
    if !holds_text(&segment.name, "enum_functions") {
        return Err(Error { kind: ErrorKind::UnknownDirective, position: segment.position });
    }
    if ast.kind != DeclarationKind::Enumeration {
        return Err(Error { kind: ErrorKind::ExpectedEnum, position: segment.position });
    }
    let requests = parse_arguments(&annotation.arguments)?;
    generate(&ast.name, &ast.variants, &requests)
}

/// Processes a declaration: every annotation in order, the operations of
/// all of them in one list. The first annotation that fails ends the work,
/// and nothing is given out.
pub fn impl_enum_functions(ast: &Declaration) -> (result: Result<Vec<Operation>, Error>)
    ensures
        match result {
            Ok(operations) => outcome(ast@) == Ok::<Seq<OperationModel>, Error>(
                operation_models(operations@),
            ),
            Err(e) => outcome(ast@) == Err::<Seq<OperationModel>, Error>(e),
        },
{
    let mut operations: Vec<Operation> = Vec::new();
    let mut i: usize = 0;
    while i < ast.annotations.len()
        invariant
            0 <= i <= ast.annotations.len(),
            accepted_before(ast@, i as int),
            operation_models(operations@) == operations_before(ast@, i as int),
        decreases ast.annotations.len() - i,
    {
        assert(ast@.annotations[i as int] == ast.annotations[i as int]@);
        match process_annotation(ast, &ast.annotations[i]) {
            Err(e) => {
                proof {
                    assert(is_first_failure(ast@, i as int));
                    let c = choose|c: int| is_first_failure(ast@, c);
                    first_failure_is_unique(ast@, i as int, c);
                }
                return Err(e);
            },
            Ok(mut part) => {
                let ghost before = operations@;
                let ghost added = part@;
                operations.append(&mut part);
                proof {
                    assert(operations@ == before + added);
                    assert(operation_models(operations@) =~= operation_models(before)
                        + operation_models(added));
                }
            },
        }
        i = i + 1;
    }
    Ok(operations)
}

} // verus!
