//! The source text of the generated operations.

use vstd::prelude::*;
use vstd::string::StringExecFns;
use crate::error::Error;
use crate::operation::{operation_models, Operation, OperationModel};
use crate::processor::{impl_enum_functions, outcome};
use crate::source::{names, Declaration, DeclarationModel};

verus! {

pub const IMPL_HEAD: &'static str = "impl ";

pub const COUNT_HEAD: &'static str = " { const fn variant_count() -> usize { ";

pub const COUNT_TAIL: &'static str = " } }\n";

pub const ARRAY_HEAD: &'static str = " { const fn variant_array<const N: usize>() -> [Self; N] { if N > ";

pub const ARRAY_BODY: &'static str =
    " { panic!(\"requested variant array is too large\") } let full_array = [";

pub const ARRAY_TAIL: &'static str =
    "]; let mut array = [full_array[0]; N]; let mut i = 1; while i < N { array[i] = full_array[i]; i += 1; } array } }\n";

pub const PATH_HEAD: &'static str = "Self::";

pub const PATH_SEPARATOR: &'static str = ", ";

/// The decimal digits of a number, most significant first.
pub open spec fn decimal(n: nat) -> Seq<char>
    decreases n,
{
    let digit = seq!['0', '1', '2', '3', '4', '5', '6', '7', '8', '9'][(n % 10) as int];
    if n < 10 {
        seq![digit]
    } else {
        decimal(n / 10).push(digit)
    }
}

/// The text of a `usize` literal with its suffix.
pub open spec fn literal_text(n: nat) -> Seq<char> {
    decimal(n) + "usize"@
}

/// The alternatives as paths from `Self`, separated by commas.
pub open spec fn joined_paths(variants: Seq<Seq<char>>) -> Seq<char>
    decreases variants.len(),
{
    if variants.len() == 0 {
        Seq::empty()
    } else {
        let separator = if variants.len() > 1 {
            PATH_SEPARATOR@
        } else {
            Seq::empty()
        };
        joined_paths(variants.drop_last()) + separator + PATH_HEAD@ + variants.last()
    }
}

/// The definition of one operation, as source text.
pub open spec fn definition_text(operation: OperationModel) -> Seq<char> {
    match operation {
        OperationModel::VariantCount { owner, count } => IMPL_HEAD@ + owner + COUNT_HEAD@
            + literal_text(count) + COUNT_TAIL@,
        OperationModel::VariantArray { owner, variants } => IMPL_HEAD@ + owner + ARRAY_HEAD@
            + literal_text(variants.len()) + ARRAY_BODY@ + joined_paths(variants) + ARRAY_TAIL@,
    }
}

/// The definitions of a list of operations, one after the other.
pub open spec fn rendered(operations: Seq<OperationModel>) -> Seq<char>
    decreases operations.len(),
{
    if operations.len() == 0 {
        Seq::empty()
    } else {
        rendered(operations.drop_last()) + definition_text(operations.last())
    }
}

/// Makes the literal with `proc_macro2::Literal::usize_suffixed` and reads
/// it back as text. Trusted, not proved: that this text is the value in
/// decimal digits, with no sign and no separator, followed by the suffix
/// `usize`.
#[verifier::external_body]
fn suffixed_literal(n: usize) -> (text: String)
    ensures
        text@ == literal_text(n as nat),
{
    proc_macro2::Literal::usize_suffixed(n).to_string()
}

/// Writes the alternatives as paths from `Self`, separated by commas.
pub fn write_paths(variants: &Vec<String>) -> (text: String)
    ensures
        text@ == joined_paths(names(variants@)),
{
    let mut text = String::new();
    let mut i: usize = 0;
    while i < variants.len()
        invariant
            0 <= i <= variants.len(),
            text@ == joined_paths(names(variants@).take(i as int)),
        decreases variants.len() - i,
    {
        let ghost before = text@;
        if i > 0 {
            text.append(PATH_SEPARATOR);
        }
        text.append(PATH_HEAD);
        text.append(variants[i].as_str());
        proof {
            let next = names(variants@).take(i + 1);
            assert(next.drop_last() =~= names(variants@).take(i as int));
            assert(next.last() == variants[i as int]@);
            if i == 0 {
                assert(before + Seq::<char>::empty() =~= before);
            }
        }
        i = i + 1;
    }
    proof {
        assert(names(variants@).take(variants.len() as int) =~= names(variants@));
    }
    text
}

impl Operation {
    /// The definition of this operation, as source text.
    pub fn definition(&self) -> (text: String)
        ensures
            text@ == definition_text(self@),
    {
        let mut text = String::from_str(IMPL_HEAD);
        match self {
            Operation::VariantCount { owner, count } => {
                text.append(owner.as_str());
                text.append(COUNT_HEAD);
                text.append(suffixed_literal(*count).as_str());
                text.append(COUNT_TAIL);
            },
            Operation::VariantArray { owner, variants } => {
                text.append(owner.as_str());
                text.append(ARRAY_HEAD);
                text.append(suffixed_literal(variants.len()).as_str());
                text.append(ARRAY_BODY);
                text.append(write_paths(variants).as_str());
                text.append(ARRAY_TAIL);
            },
        }
        text
    }
}

/// The definitions of a list of operations, one after the other.
pub fn render(operations: &Vec<Operation>) -> (text: String)
    ensures
        text@ == rendered(operation_models(operations@)),
{
    let mut text = String::new();
    let mut i: usize = 0;
    while i < operations.len()
        invariant
            0 <= i <= operations.len(),
            text@ == rendered(operation_models(operations@).take(i as int)),
        decreases operations.len() - i,
    {
        text.append(operations[i].definition().as_str());
        proof {
            let next = operation_models(operations@).take(i + 1);
            assert(next.drop_last() =~= operation_models(operations@).take(i as int));
            assert(next.last() == operations[i as int]@);
        }
        i = i + 1;
    }
    proof {
        assert(operation_models(operations@).take(operations.len() as int) =~= operation_models(
            operations@,
        ));
    }
    text
}

/// What expanding a declaration gives: the source text of the operations
/// that its directives request, or the first failure.
pub open spec fn expansion(ast: DeclarationModel) -> Result<Seq<char>, Error> {
    match outcome(ast) {
        Ok(operations) => Ok(rendered(operations)),
        Err(e) => Err(e),
    }
}

/// Processes a declaration and gives the source text of the operations
/// that its directives request, or the first failure.
pub fn expand(ast: &Declaration) -> (result: Result<String, Error>)
    ensures
        match result {
            Ok(text) => expansion(ast@) == Ok::<Seq<char>, Error>(text@),
            Err(e) => expansion(ast@) == Err::<Seq<char>, Error>(e),
        },
{
    match impl_enum_functions(ast) {
        Ok(operations) => Ok(render(&operations)),
        Err(e) => Err(e),
    }
}

} // verus!
