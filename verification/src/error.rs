//! Failures of the processor and of the operations it yields.

use vstd::prelude::*;
use vstd::string::StringExecFns;
use crate::source::Position;

verus! {

/// Why a directive's path was refused.
#[derive(Clone, Copy, Debug, PartialEq, Eq, Structural)]
pub enum PathFault {
    LeadingSeparator,
    SegmentCount,
    Arguments,
}

/// The kinds of failure.
#[derive(Clone, Copy, Debug, PartialEq, Eq, Structural)]
pub enum ErrorKind {
    MalformedAnnotation,
    InvalidDirectivePath(PathFault),
    UnknownDirective,
    ExpectedEnum,
    MalformedArgumentList,
    DuplicateCapability,
    UnknownCapability,
    OversizedArrayRequest,
}

/// A failure of the processor: its kind and the position it points at.
#[derive(Clone, Copy, Debug, PartialEq, Eq, Structural)]
pub struct Error {
    pub kind: ErrorKind,
    pub position: Position,
}

/// The words that describe a failure of the given kind.
pub open spec fn message_of(kind: ErrorKind) -> Seq<char> {
    match kind {
        ErrorKind::MalformedAnnotation => "expected a parenthesized argument list"@,
        ErrorKind::InvalidDirectivePath(PathFault::LeadingSeparator) => "unexpected leading double colon"@,
        ErrorKind::InvalidDirectivePath(PathFault::SegmentCount) => "unexpected double colon in path"@,
        ErrorKind::InvalidDirectivePath(PathFault::Arguments) => "unexpected path arguments"@,
        ErrorKind::UnknownDirective => "unknown attribute"@,
        ErrorKind::ExpectedEnum => "expected enum"@,
        ErrorKind::MalformedArgumentList => "expected comma-separated identifiers"@,
        ErrorKind::DuplicateCapability => "duplicated attribute"@,
        ErrorKind::UnknownCapability => "unknown attribute"@,
        ErrorKind::OversizedArrayRequest => "requested variant array is too large"@,
    }
}

impl ErrorKind {
    /// The human-readable message for this kind of failure.
    pub fn message(&self) -> (text: String)
        ensures
            text@ == message_of(*self),
    {
        match self {
            ErrorKind::MalformedAnnotation => String::from_str("expected a parenthesized argument list"),
            ErrorKind::InvalidDirectivePath(PathFault::LeadingSeparator) => String::from_str("unexpected leading double colon"),
            ErrorKind::InvalidDirectivePath(PathFault::SegmentCount) => String::from_str("unexpected double colon in path"),
            ErrorKind::InvalidDirectivePath(PathFault::Arguments) => String::from_str("unexpected path arguments"),
            ErrorKind::UnknownDirective => String::from_str("unknown attribute"),
            ErrorKind::ExpectedEnum => String::from_str("expected enum"),
            ErrorKind::MalformedArgumentList => String::from_str("expected comma-separated identifiers"),
            ErrorKind::DuplicateCapability => String::from_str("duplicated attribute"),
            ErrorKind::UnknownCapability => String::from_str("unknown attribute"),
            ErrorKind::OversizedArrayRequest => String::from_str("requested variant array is too large"),
        }
    }
}

impl Error {
    /// The human-readable message of this failure.
    pub fn message(&self) -> (text: String)
        ensures
            text@ == message_of(self.kind),
    {
        self.kind.message()
    }
}

} // verus!
