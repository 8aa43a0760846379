//! The three ways in which an expansion fails.

use crate::token::Span;
use vstd::prelude::*;

verus! {

/// What was wrong with the declaration.
#[derive(Clone, Copy, Debug, PartialEq, Eq, Structural)]
pub enum ErrorKind {
    /// The tokens before the signatures are neither `name as` nor `Owner :: name as`.
    MalformedHeader,
    /// A signature lacks `fn`, its parameter list or its body, or a part of it
    /// cannot be read.
    MalformedSignature,
    /// A signature of a free function has a `self` parameter.
    ReceiverNotAllowed,
}

/// A failed expansion: what was wrong, and at which token.
#[derive(Clone, Copy, Debug, PartialEq, Eq, Structural)]
pub struct ExpandError {
    pub kind: ErrorKind,
    pub span: Span,
}

/// The failure of a header at `span`.
pub open spec fn malformed_header(span: Span) -> ExpandError {
    ExpandError { kind: ErrorKind::MalformedHeader, span }
}

/// The failure of a signature at `span`.
pub open spec fn malformed_signature(span: Span) -> ExpandError {
    ExpandError { kind: ErrorKind::MalformedSignature, span }
}

/// The refusal of a `self` parameter in the parameter list at `span`.
pub open spec fn receiver_not_allowed(span: Span) -> ExpandError {
    ExpandError { kind: ErrorKind::ReceiverNotAllowed, span }
}

impl ExpandError {
    /// The failure of a header at `span`.
    pub fn header(span: Span) -> (e: ExpandError)
        ensures
            e == malformed_header(span),
    {
        ExpandError { kind: ErrorKind::MalformedHeader, span }
    }

    /// The failure of a signature at `span`.
    pub fn signature(span: Span) -> (e: ExpandError)
        ensures
            e == malformed_signature(span),
    {
        ExpandError { kind: ErrorKind::MalformedSignature, span }
    }

    /// The refusal of a `self` parameter in the parameter list at `span`.
    pub fn receiver(span: Span) -> (e: ExpandError)
        ensures
            e == receiver_not_allowed(span),
    {
        ExpandError { kind: ErrorKind::ReceiverNotAllowed, span }
    }

    /// The words in which the failure is reported.
    pub fn message(&self) -> (text: String)
        ensures
            text@ == match self.kind {
                ErrorKind::MalformedHeader => "expected `name as` or `Owner :: name as`"@,
                ErrorKind::MalformedSignature => "this is not part of a function signature"@,
                ErrorKind::ReceiverNotAllowed =>
                    "This declaration cannot contain a `self`-style parameter."@,
            },
    {
        match self.kind {
            ErrorKind::MalformedHeader => String::from_str(
                "expected `name as` or `Owner :: name as`",
            ),
            ErrorKind::MalformedSignature => String::from_str(
                "this is not part of a function signature",
            ),
            ErrorKind::ReceiverNotAllowed => String::from_str(
                "This declaration cannot contain a `self`-style parameter.",
            ),
        }
    }
}

} // verus!
