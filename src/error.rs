//! Why a JSON value could not be read as a document, and where.
use vstd::prelude::*;

verus! {

/// One step from a node down to the place of a failure.
#[derive(Debug, PartialEq)]
pub enum PathStep {
    /// A member of an object, by key.
    Field(&'static str),
    /// An element of an array, by position.
    Index(usize),
}

#[derive(Debug, PartialEq)]
#[allow(inconsistent_fields)]
pub enum DecodeErrorKind {
    /// The text is not JSON.
    MalformedInput,
    /// A `type` that names no node or mark (empty where `type` is absent or
    /// not a string).
    UnknownVariant(String),
    /// A required field is absent.
    MissingField { variant: &'static str, field: &'static str },
    /// A field is present with a value of the wrong shape.
    TypeMismatch { variant: &'static str, field: &'static str, expected: &'static str },
    /// A key that the variant does not declare.
    UnexpectedField { variant: &'static str, field: String },
}

/// A failure and the path, from the outermost node inwards, to the value
/// where it occurred.
#[derive(Debug, PartialEq)]
pub struct DecodeError {
    pub kind: DecodeErrorKind,
    pub path: Vec<PathStep>,
}

pub fn error_at(kind: DecodeErrorKind) -> (r: DecodeError)
    ensures
        r.kind == kind,
        r.path@.len() == 0,
{
    DecodeError { kind, path: Vec::new() }
}

impl DecodeError {
    /// The same failure, seen from one step further out.
    pub fn within(self, step: PathStep) -> (r: DecodeError)
        ensures
            r.kind == self.kind,
            r.path@ == seq![step] + self.path@,
    {
        let mut e = self;
        e.path.insert(0, step);
        assert(e.path@ =~= seq![step] + self.path@);
        e
    }
}

} // verus!
