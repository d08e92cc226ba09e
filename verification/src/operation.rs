//! The operations that a directive brings forth for an enumerated type.

use vstd::prelude::*;
use crate::error::ErrorKind;
use crate::source::names;

verus! {

/// One generated operation, attached to the type named `owner`.
#[derive(Clone, Debug, PartialEq, Eq)]
pub enum Operation {
    /// Gives the number of alternatives, fixed when the operation is made.
    VariantCount { owner: String, count: usize },
    /// Gives the first alternatives, as many as the caller asks for.
    VariantArray { owner: String, variants: Vec<String> },
}

/// An operation as a plain value.
pub ghost enum OperationModel {
    VariantCount { owner: Seq<char>, count: nat },
    VariantArray { owner: Seq<char>, variants: Seq<Seq<char>> },
}

impl View for Operation {
    type V = OperationModel;

    open spec fn view(&self) -> OperationModel {
        match *self {
            Operation::VariantCount { owner, count } => OperationModel::VariantCount {
                owner: owner@,
                count: count as nat,
            },
            Operation::VariantArray { owner, variants } => OperationModel::VariantArray {
                owner: owner@,
                variants: names(variants@),
            },
        }
    }
}

/// The operations of a vector, each as a plain value.
pub open spec fn operation_models(operations: Seq<Operation>) -> Seq<OperationModel> {
    Seq::new(operations.len(), |i: int| operations[i]@)
}

impl OperationModel {
    /// What the count operation returns; nothing for another operation.
    pub open spec fn count_result(self) -> Option<nat> {
        match self {
            OperationModel::VariantCount { count, .. } => Some(count),
            OperationModel::VariantArray { .. } => None,
        }
    }

    /// What the array operation returns when asked for `n` alternatives:
    /// the first `n`, or a failure where there are fewer. Nothing for
    /// another operation.
    pub open spec fn array_result(self, n: nat) -> Option<Result<Seq<Seq<char>>, ErrorKind>> {
        match self {
            OperationModel::VariantCount { .. } => None,
            OperationModel::VariantArray { variants, .. } => Some(
                if n <= variants.len() {
                    Ok(variants.take(n as int))
                } else {
                    Err(ErrorKind::OversizedArrayRequest)
                },
            ),
        }
    }
}

impl Operation {
    /// Evaluates a count operation.
    pub fn variant_count(&self) -> (result: Option<usize>)
        ensures
            match result {
                Some(k) => self@.count_result() == Some(k as nat),
                None => self@.count_result() is None,
            },
    {
        match self {
            Operation::VariantCount { count, .. } => Some(*count),
            Operation::VariantArray { .. } => None,
        }
    }

    /// Evaluates an array operation for `n` alternatives.
    pub fn variant_array(&self, n: usize) -> (result: Option<Result<Vec<String>, ErrorKind>>)
        ensures
            match result {
                Some(Ok(items)) => self@.array_result(n as nat) == Some(
                    Ok::<Seq<Seq<char>>, ErrorKind>(names(items@)),
                ),
                Some(Err(e)) => self@.array_result(n as nat) == Some(
                    Err::<Seq<Seq<char>>, ErrorKind>(e),
                ),
                None => self@.array_result(n as nat) is None,
            },
    {
        match self {
            Operation::VariantCount { .. } => None,
            Operation::VariantArray { variants, .. } => {
                if n > variants.len() {
                    return Some(Err(ErrorKind::OversizedArrayRequest));
                }
                let mut items: Vec<String> = Vec::new();
                let mut i: usize = 0;
                while i < n
                    invariant
                        0 <= i <= n <= variants.len(),
                        items.len() == i,
                        forall|k: int| 0 <= k < i ==> #[trigger] items[k]@ == variants[k]@,
                    decreases n - i,
                {
                    items.push(variants[i].clone());
                    i = i + 1;
                }
                proof {
                    assert(names(items@) =~= names(variants@).take(n as int));
                }
                Some(Ok(items))
            },
        }
    }
}

} // verus!
