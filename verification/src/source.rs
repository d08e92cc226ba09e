//! The declaration that the processor reads, as plain values.

use vstd::prelude::*;

verus! {

/// A place in the source text, as line and column.
#[derive(Clone, Copy, Debug, PartialEq, Eq, Structural)]
pub struct Position {
    pub line: usize,
    pub column: usize,
}

/// What sort of type a declaration introduces.
#[derive(Clone, Copy, Debug, PartialEq, Eq, Structural)]
pub enum DeclarationKind {
    Enumeration,
    Structure,
    Union,
}

/// The three shapes an annotation can have: a bare name, a name with a
/// parenthesised argument list, or a name with a value.
#[derive(Clone, Copy, Debug, PartialEq, Eq, Structural)]
pub enum AnnotationForm {
    Word,
    List,
    NameValue,
}

/// The sort of a token inside an argument list.
#[derive(Clone, Copy, Debug, PartialEq, Eq, Structural)]
pub enum TokenKind {
    Identifier,
    Comma,
    Other,
}

/// One token of an argument list. `text` is the identifier's name where the
/// token is an identifier.
#[derive(Clone, Debug, PartialEq, Eq)]
pub struct ArgumentToken {
    pub kind: TokenKind,
    pub text: String,
    pub position: Position,
}

/// One segment of a directive's path.
#[derive(Clone, Debug, PartialEq, Eq)]
pub struct PathSegment {
    pub name: String,
    pub has_arguments: bool,
    pub position: Position,
}

/// An annotation attached to a declaration. For the forms without an
/// argument list, `delimiter` and `arguments` carry no meaning.
#[derive(Clone, Debug, PartialEq, Eq)]
pub struct Annotation {
    pub form: AnnotationForm,
    pub position: Position,
    pub leading_separator: bool,
    pub segments: Vec<PathSegment>,
    pub delimiter: Position,
    pub arguments: Vec<ArgumentToken>,
}

/// A type declaration: its name, its alternatives in declaration order and
/// the annotations attached to it.
#[derive(Clone, Debug, PartialEq, Eq)]
pub struct Declaration {
    pub name: String,
    pub kind: DeclarationKind,
    pub variants: Vec<String>,
    pub annotations: Vec<Annotation>,
}

/// The names held by a sequence of strings.
pub open spec fn names(items: Seq<String>) -> Seq<Seq<char>> {
    Seq::new(items.len(), |i: int| items[i]@)
}

/// A token of an argument list as a plain value.
pub ghost struct TokenModel {
    pub kind: TokenKind,
    pub text: Seq<char>,
    pub position: Position,
}

/// A path segment as a plain value.
pub ghost struct SegmentModel {
    pub name: Seq<char>,
    pub has_arguments: bool,
    pub position: Position,
}

/// An annotation as a plain value.
pub ghost struct AnnotationModel {
    pub form: AnnotationForm,
    pub position: Position,
    pub leading_separator: bool,
    pub segments: Seq<SegmentModel>,
    pub delimiter: Position,
    pub arguments: Seq<TokenModel>,
}

/// A declaration as a plain value.
pub ghost struct DeclarationModel {
    pub name: Seq<char>,
    pub kind: DeclarationKind,
    pub variants: Seq<Seq<char>>,
    pub annotations: Seq<AnnotationModel>,
}

impl View for ArgumentToken {
    type V = TokenModel;

    open spec fn view(&self) -> TokenModel {
        TokenModel { kind: self.kind, text: self.text@, position: self.position }
    }
}

impl View for PathSegment {
    type V = SegmentModel;

    open spec fn view(&self) -> SegmentModel {
        SegmentModel {
            name: self.name@,
            has_arguments: self.has_arguments,
            position: self.position,
        }
    }
}

/// The tokens of a vector, each as a plain value.
pub open spec fn token_models(tokens: Seq<ArgumentToken>) -> Seq<TokenModel> {
    Seq::new(tokens.len(), |i: int| tokens[i]@)
}

/// The segments of a vector, each as a plain value.
pub open spec fn segment_models(segments: Seq<PathSegment>) -> Seq<SegmentModel> {
    Seq::new(segments.len(), |i: int| segments[i]@)
}

impl View for Annotation {
    type V = AnnotationModel;

    open spec fn view(&self) -> AnnotationModel {
        AnnotationModel {
            form: self.form,
            position: self.position,
            leading_separator: self.leading_separator,
            segments: segment_models(self.segments@),
            delimiter: self.delimiter,
            arguments: token_models(self.arguments@),
        }
    }
}

/// The annotations of a vector, each as a plain value.
pub open spec fn annotation_models(annotations: Seq<Annotation>) -> Seq<AnnotationModel> {
    Seq::new(annotations.len(), |i: int| annotations[i]@)
}

impl View for Declaration {
    type V = DeclarationModel;

    open spec fn view(&self) -> DeclarationModel {
        DeclarationModel {
            name: self.name@,
            kind: self.kind,
            variants: names(self.variants@),
            annotations: annotation_models(self.annotations@),
        }
    }
}

} // verus!
