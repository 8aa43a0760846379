//! Signatures: one function definition of a declaration, as a record.
//!
//! The executable records own copies of the tokens they were read from; each
//! has a model over mathematical sequences, which the contracts speak of.

use crate::token::{trees, Mark, Span, TokenTree, Tree};
use vstd::prelude::*;

verus! {

/// The models of a sequence of records, in order.
pub open spec fn views<T: View>(s: Seq<T>) -> Seq<T::V> {
    Seq::new(s.len(), |i: int| s[i]@)
}

/// Taking models commutes with appending one record.
pub proof fn lemma_views_push<T: View>(s: Seq<T>, t: T)
    ensures
        views(s.push(t)) == views(s).push(t@),
{
    assert(views(s.push(t)) =~= views(s).push(t@));
}

/// The model of a token sequence that may be absent.
pub open spec fn optional_trees(tokens: Option<Vec<TokenTree>>) -> Option<Seq<Tree>> {
    match tokens {
        Some(v) => Some(trees(v@)),
        None => None,
    }
}

/// Model of an annotation: the tokens between the brackets of `#[ ]`, and
/// the span of the brackets.
pub struct Attribute {
    pub meta: Seq<Tree>,
    pub bracket: Span,
}

/// An annotation before `fn`: the tokens between the brackets of `#[ ]`, and
/// the span of the brackets.
#[derive(Debug, PartialEq, Eq)]
pub struct Annotation {
    pub meta: Vec<TokenTree>,
    pub bracket: Span,
}

impl View for Annotation {
    type V = Attribute;

    open spec fn view(&self) -> Attribute {
        Attribute { meta: trees(self.meta@), bracket: self.bracket }
    }
}

/// Model of a `self` parameter. See [`ThisDef`].
pub enum Receiver {
    Explicit { mutability: Option<Span>, this: Span, colon: Mark, ty: Seq<Tree>, comma: Option<Mark> },
    Implicit { reference: Option<Mark>, mutability: Option<Span>, this: Span, comma: Option<Mark> },
}

/// How a member signature binds the value it is called on. Each word of the
/// parameter is kept by its span, and each punctuation character as it was
/// written.
#[derive(Debug, PartialEq, Eq)]
pub enum ThisDef {
    /// `self: Type` or `mut self: Type`, and the comma after it if there is one.
    Explicit { mutability: Option<Span>, this: Span, colon: Mark, ty: Vec<TokenTree>, comma: Option<Mark> },
    /// `self`, `mut self`, `&self` or `&mut self`, and the comma after it if
    /// there is one.
    Implicit { reference: Option<Mark>, mutability: Option<Span>, this: Span, comma: Option<Mark> },
}

impl View for ThisDef {
    type V = Receiver;

    open spec fn view(&self) -> Receiver {
        match self {
            ThisDef::Explicit { mutability, this, colon, ty, comma } => Receiver::Explicit {
                mutability: *mutability,
                this: *this,
                colon: *colon,
                ty: trees(ty@),
                comma: *comma,
            },
            ThisDef::Implicit { reference, mutability, this, comma } => Receiver::Implicit {
                reference: *reference,
                mutability: *mutability,
                this: *this,
                comma: *comma,
            },
        }
    }
}

/// The model of a `self` parameter that may be absent.
pub open spec fn optional_receiver(this: Option<ThisDef>) -> Option<Receiver> {
    match this {
        Some(t) => Some(t@),
        None => None,
    }
}

/// Model of a parameter: the tokens of its pattern and of its type.
pub struct Parameter {
    pub pattern: Seq<Tree>,
    pub ty: Seq<Tree>,
}

/// A parameter: the tokens of its pattern and of its type.
#[derive(Debug, PartialEq, Eq)]
pub struct Param {
    pub pattern: Vec<TokenTree>,
    pub ty: Vec<TokenTree>,
}

impl View for Param {
    type V = Parameter;

    open spec fn view(&self) -> Parameter {
        Parameter { pattern: trees(self.pattern@), ty: trees(self.ty@) }
    }
}

/// Model of a `where` clause: the span of the word `where`, and the tokens of
/// the predicates.
pub struct Constraint {
    pub keyword: Span,
    pub predicates: Seq<Tree>,
}

/// A `where` clause: the span of the word `where`, and the tokens of the
/// predicates, without the brackets where they stood in brackets.
#[derive(Debug, PartialEq, Eq)]
pub struct WhereClause {
    pub keyword: Span,
    pub predicates: Vec<TokenTree>,
}

impl View for WhereClause {
    type V = Constraint;

    open spec fn view(&self) -> Constraint {
        Constraint { keyword: self.keyword, predicates: trees(self.predicates@) }
    }
}

/// The model of a `where` clause that may be absent.
pub open spec fn optional_constraint(clause: Option<WhereClause>) -> Option<Constraint> {
    match clause {
        Some(c) => Some(c@),
        None => None,
    }
}

/// Model of one function definition of a declaration. See [`ParsedFnDef`].
pub struct Signature {
    pub attrs: Seq<Attribute>,
    pub generics: Option<Seq<Tree>>,
    pub paren: Span,
    pub receiver: Option<Receiver>,
    pub params: Seq<Parameter>,
    pub ret: Option<Seq<Tree>>,
    pub constraint: Option<Constraint>,
    pub body: Seq<Tree>,
    pub brace: Span,
}

/// One function definition of a declaration.
#[derive(Debug, PartialEq, Eq)]
pub struct ParsedFnDef {
    /// The annotations before `fn`, in order.
    pub meta: Vec<Annotation>,
    /// The generic parameter list with its angle brackets, where there is one.
    pub gen: Option<Vec<TokenTree>>,
    /// The span of the parentheses of the parameter list.
    pub paren: Span,
    /// The `self` parameter, where there is one.
    pub this: Option<ThisDef>,
    /// The parameters after the `self` parameter, in order.
    pub params: Vec<Param>,
    /// The tokens of the return type, where one is written after `->`.
    pub ret: Option<Vec<TokenTree>>,
    /// The `where` clause, where there is one.
    pub w_clause: Option<WhereClause>,
    /// The tokens between the braces of the body.
    pub code: Vec<TokenTree>,
    /// The span of the braces of the body.
    pub brace: Span,
}

impl View for ParsedFnDef {
    type V = Signature;

    open spec fn view(&self) -> Signature {
        Signature {
            attrs: views(self.meta@),
            generics: optional_trees(self.gen),
            paren: self.paren,
            receiver: optional_receiver(self.this),
            params: views(self.params@),
            ret: optional_trees(self.ret),
            constraint: optional_constraint(self.w_clause),
            body: trees(self.code@),
            brace: self.brace,
        }
    }
}

/// A by-value `self` without a type of its own: the owner must then be
/// `Sized`.
pub open spec fn sized_dependent(receiver: Option<Receiver>) -> bool {
    receiver matches Some(Receiver::Implicit { reference, .. }) && reference is None
}

impl ThisDef {
    /// Whether `this` is a by-value `self` without a type of its own, which
    /// asks that the owner be `Sized`.
    pub fn is_sized_dependent(this: &Option<ThisDef>) -> (sized: bool)
        ensures
            sized == sized_dependent(optional_receiver(*this)),
    {
        match this {
            Some(ThisDef::Implicit { reference, .. }) => reference.is_none(),
            _ => false,
        }
    }
}

} // verus!
