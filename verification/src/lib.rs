//! Expansion of overloadable function declarations.
//!
//! One name is declared with several function bodies, each with its own
//! parameter list, generic parameters, return type and `where` clause. The
//! crate reads such a declaration from token trees and writes the items that
//! make the name callable with every one of the parameter lists; which body
//! runs is decided by the types of the arguments alone.
//!
//! There are two kinds of declaration.
//!
//! ```text
//! pub my_func as
//!     fn(x: usize, y: &str) -> f32 { (x * y.len()) as f32 },
//!     fn<T>(x: T) -> String where [T: Debug] { format!("{:?}", x) }
//! ```
//!
//! declares a free function: [`overloadable`] expands it to a unit struct
//! `my_func` and, for every signature, implementations of `Fn`, `FnOnce` and
//! `FnMut` for that struct.
//!
//! ```text
//! Foo::my_func as
//!     fn(&self) -> usize { 1 },
//!     fn(self, x: usize) -> Vec<Self> { vec![self; x] },
//!     fn(self: Box<Self>, other: Box<Self>) -> bool { *self == *other }
//! ```
//!
//! declares members of `Foo`: [`overloadable_member`] expands it to one trait
//! for every signature, `FooTrait0`, `FooTrait1` and so on, each with the one
//! method `my_func`, and to the implementation of each trait for `Foo`.
//!
//! # Grammar
//!
//! ```text
//! free        := visibility? name "as" signatures
//! member      := visibility? name "::" name "as" signatures
//! signatures  := signature ("," signature)* ","?
//! signature   := annotation* "fn" generics? "(" self? parameters? ")"
//!                ("->" type)? constraints? "{" tokens "}"
//! annotation  := "#" "[" tokens "]"
//! parameters  := pattern ":" type ("," pattern ":" type)* ","?
//! constraints := "where" "[" tokens "]" | "where" predicates
//! ```
//!
//! Visibilities, names, generic parameter lists, patterns, types and
//! predicates are those of Rust, as the `syn` crate reads them (see
//! [`syntax`]). What stands in the brackets of an annotation, in the brackets
//! of a `where` clause and in braces anywhere is never looked at, and neither
//! is the text of a literal.
//!
//! # Modules
//!
//! [`token`] holds the token trees and their model, [`text`] the form in
//! which they are written out to be read. [`signature`] and [`header`] hold
//! the records that a declaration is read into, [`parser`] the reading of
//! signatures. [`emit`], [`free`] and [`member`] write the expansion.
//! [`laws`] states what holds of all of it.

pub mod emit;
pub mod error;
pub mod free;
pub mod header;
pub mod laws;
pub mod member;
pub mod parser;
pub mod signature;
pub mod syntax;
pub mod text;
pub mod token;

use crate::error::ExpandError;
use crate::free::{emit_marker, free_decls, gen_fn_decls, marker};
use crate::header::{free_form, member_form, OverloadableAssociated, OverloadableGlobal};
use crate::member::{gen_trait_fn_decls, member_decls};
use crate::token::{trees, TokenTree, Tree};
use vstd::prelude::*;

verus! {

/// What a declaration of a free function expands to: the marker type, and
/// behind it the implementations for every signature. A declaration that
/// cannot be read, or that holds a signature with a `self` parameter, expands
/// to nothing but its failure.
pub open spec fn free_expansion(input: Seq<Tree>) -> Result<Seq<Tree>, ExpandError> {
    match free_form(input) {
        Err(e) => Err(e),
        Ok(form) => match free_decls(form.signatures, form.name) {
            Err(e) => Err(e),
            Ok(impls) => Ok(marker(form.vis, form.name) + impls),
        },
    }
}

/// What a declaration of members expands to: a trait and its implementation
/// for every signature. A declaration that cannot be read expands to nothing
/// but its failure.
pub open spec fn member_expansion(input: Seq<Tree>) -> Result<Seq<Tree>, ExpandError> {
    match member_form(input) {
        Err(e) => Err(e),
        Ok(form) => Ok(member_decls(form.vis, form.owner, form.name, form.signatures)),
    }
}

/// Expands the declaration `name as` signatures of an overloadable function.
///
/// The declared name becomes a unit struct, and every signature three
/// implementations for it, of `Fn`, `FnOnce` and `FnMut`, with the tuple of
/// the signature's parameter types as the argument.
pub fn overloadable(input: &Vec<TokenTree>) -> (r: Result<Vec<TokenTree>, ExpandError>)
    ensures
        match r {
            Ok(out) => free_expansion(trees(input@)) == Ok::<Seq<Tree>, ExpandError>(trees(out@)),
            Err(e) => free_expansion(trees(input@)) == Err::<Seq<Tree>, ExpandError>(e),
        },
{
    let form = match OverloadableGlobal::parse(input) {
        Ok(form) => form,
        Err(e) => {
            return Err(e);
        },
    };
    let mut impls = match gen_fn_decls(&form.fns, &form.name) {
        Ok(impls) => impls,
        Err(e) => {
            return Err(e);
        },
    };
    let mut out: Vec<TokenTree> = Vec::new();
    emit_marker(&mut out, &form.vis, &form.name);
    proof {
        crate::token::lemma_trees_add(out@, impls@);
        assert(trees(out@) =~= marker(form@.vis, form@.name));
    }
    out.append(&mut impls);
    Ok(out)
}

/// Expands the declaration `Owner :: name as` signatures of overloadable
/// members.
///
/// Every signature becomes a trait of its own with the one method `name`,
/// and an implementation of that trait for `Owner`.
pub fn overloadable_member(input: &Vec<TokenTree>) -> (r: Result<Vec<TokenTree>, ExpandError>)
    ensures
        match r {
            Ok(out) => member_expansion(trees(input@)) == Ok::<Seq<Tree>, ExpandError>(
                trees(out@),
            ),
            Err(e) => member_expansion(trees(input@)) == Err::<Seq<Tree>, ExpandError>(e),
        },
{
    let form = match OverloadableAssociated::parse(input) {
        Ok(form) => form,
        Err(e) => {
            return Err(e);
        },
    };
    gen_trait_fn_decls(&form.fns, &form.name, &form.struct_name, &form.vis)
}

} // verus!
