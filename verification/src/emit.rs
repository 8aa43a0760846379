//! Writing tokens: the pieces that both kinds of expansion are made of.
//!
//! Every spec function here says which tokens a piece consists of; the
//! executable function beside it appends exactly those to its output.

use crate::header::{Ident, Name};
use crate::signature::{
    optional_constraint, optional_trees, views, Annotation, Attribute, Constraint, ParsedFnDef,
    Signature, WhereClause,
};
use crate::token::{
    alone, copy_all, extend_copy, group, joint, lemma_trees_push, trees, word, Delimiter, Spacing,
    Span, TokenTree, Tree,
};
use vstd::prelude::*;

verus! {

/// Appends the word `text` at `span`.
pub fn push_word(out: &mut Vec<TokenTree>, text: &str, span: Span)
    ensures
        trees(final(out)@) == trees(old(out)@).push(word(text@, span)),
{
    let t = TokenTree::ident(text, span);
    proof {
        lemma_trees_push(out@, t);
    }
    out.push(t);
}

/// Appends the punctuation character `ch` at `span`, with nothing joined to it.
pub fn push_alone(out: &mut Vec<TokenTree>, ch: char, span: Span)
    ensures
        trees(final(out)@) == trees(old(out)@).push(alone(ch, span)),
{
    let t = TokenTree::punct(ch, Spacing::Alone, span);
    proof {
        lemma_trees_push(out@, t);
    }
    out.push(t);
}

/// Appends the punctuation character `ch` at `span`, joined to the next.
pub fn push_joint(out: &mut Vec<TokenTree>, ch: char, span: Span)
    ensures
        trees(final(out)@) == trees(old(out)@).push(joint(ch, span)),
{
    let t = TokenTree::punct(ch, Spacing::Joint, span);
    proof {
        lemma_trees_push(out@, t);
    }
    out.push(t);
}

/// Appends the group of `inner` in the brackets `delimiter` at `span`.
pub fn push_group(out: &mut Vec<TokenTree>, delimiter: Delimiter, inner: Vec<TokenTree>, span: Span)
    ensures
        trees(final(out)@) == trees(old(out)@).push(group(delimiter, trees(inner@), span)),
{
    let t = TokenTree::group(delimiter, inner, span);
    proof {
        lemma_trees_push(out@, t);
    }
    out.push(t);
}

/// Appends the token `t`.
pub fn push_tree(out: &mut Vec<TokenTree>, t: TokenTree)
    ensures
        trees(final(out)@) == trees(old(out)@).push(t@),
{
    proof {
        lemma_trees_push(out@, t);
    }
    out.push(t);
}

/// The token of an identifier.
pub open spec fn name_token(name: Name) -> Tree {
    word(name.text, name.span)
}

/// Appends the token of the identifier `name`.
pub fn push_name(out: &mut Vec<TokenTree>, name: &Ident)
    ensures
        trees(final(out)@) == trees(old(out)@).push(name_token(name@)),
{
    push_word(out, name.text.as_str(), name.span);
}

/// The first `n` annotations, written again: each is `#` and its tokens in
/// square brackets, both at the span of the brackets it was read with.
pub open spec fn attribute_tokens(attrs: Seq<Attribute>, n: nat) -> Seq<Tree>
    decreases n,
{
    if n == 0 || n > attrs.len() {
        Seq::empty()
    } else {
        attribute_tokens(attrs, (n - 1) as nat) + seq![
            alone('#', attrs[n - 1].bracket),
            group(Delimiter::Bracket, attrs[n - 1].meta, attrs[n - 1].bracket),
        ]
    }
}

/// Appends the annotations `meta`, written again.
pub fn emit_annotations(out: &mut Vec<TokenTree>, meta: &Vec<Annotation>)
    ensures
        trees(final(out)@) == trees(old(out)@) + attribute_tokens(views(meta@), meta.len() as nat),
{
    let ghost attrs = views(meta@);
    let mut i: usize = 0;
    assert(trees(out@) =~= trees(old(out)@) + attribute_tokens(attrs, 0));
    while i < meta.len()
        invariant
            i <= meta.len(),
            attrs == views(meta@),
            trees(out@) == trees(old(out)@) + attribute_tokens(attrs, i as nat),
        decreases meta.len() - i,
    {
        push_alone(out, '#', meta[i].bracket);
        push_group(out, Delimiter::Bracket, copy_all(&meta[i].meta), meta[i].bracket);
        proof {
            assert(attrs[i as int] == meta@[i as int]@);
            assert(trees(out@) =~= trees(old(out)@) + attribute_tokens(attrs, (i + 1) as nat));
        }
        i += 1;
    }
}

/// The tokens that may be absent: themselves, or none.
pub open spec fn optional_tokens(tokens: Option<Seq<Tree>>) -> Seq<Tree> {
    match tokens {
        Some(t) => t,
        None => Seq::empty(),
    }
}

/// Appends copies of `tokens`, where there are any.
pub fn emit_optional(out: &mut Vec<TokenTree>, tokens: &Option<Vec<TokenTree>>)
    ensures
        trees(final(out)@) == trees(old(out)@) + optional_tokens(optional_trees(*tokens)),
{
    match tokens {
        Some(t) => {
            extend_copy(out, t);
        },
        None => {
            assert(trees(out@) =~= trees(old(out)@) + Seq::<Tree>::empty());
        },
    }
}

/// The return type of a signature: the type written after `->`, token for
/// token; and where none is written the empty tuple, at the span of the
/// parentheses of the parameter list.
pub open spec fn return_type(sig: Signature) -> Seq<Tree> {
    match sig.ret {
        Some(ty) => ty,
        None => seq![group(Delimiter::Parenthesis, Seq::empty(), sig.paren)],
    }
}

/// Appends the return type of `def`.
pub fn emit_return_type(out: &mut Vec<TokenTree>, def: &ParsedFnDef)
    ensures
        trees(final(out)@) == trees(old(out)@) + return_type(def@),
{
    match &def.ret {
        Some(ty) => {
            extend_copy(out, ty);
        },
        None => {
            let inner: Vec<TokenTree> = Vec::new();
            assert(trees(inner@) =~= Seq::<Tree>::empty());
            push_group(out, Delimiter::Parenthesis, inner, def.paren);
            assert(trees(out@) =~= trees(old(out)@) + return_type(def@));
        },
    }
}

/// The `where` clause, written again: the word `where` at its span and the
/// predicates behind it; nothing where the signature has none.
pub open spec fn constraint_tokens(constraint: Option<Constraint>) -> Seq<Tree> {
    match constraint {
        Some(c) => seq![word("where"@, c.keyword)] + c.predicates,
        None => Seq::empty(),
    }
}

/// Appends the `where` clause, where there is one.
pub fn emit_constraint(out: &mut Vec<TokenTree>, clause: &Option<WhereClause>)
    ensures
        trees(final(out)@) == trees(old(out)@) + constraint_tokens(optional_constraint(*clause)),
{
    match clause {
        Some(c) => {
            push_word(out, "where", c.keyword);
            extend_copy(out, &c.predicates);
            assert(trees(out@) =~= trees(old(out)@) + constraint_tokens(
                optional_constraint(*clause),
            ));
        },
        None => {
            assert(trees(out@) =~= trees(old(out)@) + Seq::<Tree>::empty());
        },
    }
}

/// The body of a signature: its tokens in braces, at the span of its braces.
pub open spec fn body_block(sig: Signature) -> Tree {
    group(Delimiter::Brace, sig.body, sig.brace)
}

/// The body of a function or method: the body of the signature as the one
/// expression in a pair of braces.
pub open spec fn wrapped_body(sig: Signature) -> Tree {
    group(Delimiter::Brace, seq![body_block(sig)], Span::CallSite)
}

/// Appends the body of a function or method.
pub fn emit_wrapped_body(out: &mut Vec<TokenTree>, def: &ParsedFnDef)
    ensures
        trees(final(out)@) == trees(old(out)@).push(wrapped_body(def@)),
{
    let mut inner: Vec<TokenTree> = Vec::new();
    push_group(&mut inner, Delimiter::Brace, copy_all(&def.code), def.brace);
    assert(trees(inner@) =~= seq![body_block(def@)]);
    push_group(out, Delimiter::Brace, inner, Span::CallSite);
}

/// `->`, as two punctuation characters.
pub open spec fn arrow() -> Seq<Tree> {
    seq![joint('-', Span::CallSite), alone('>', Span::CallSite)]
}

/// Appends `->`.
pub fn emit_arrow(out: &mut Vec<TokenTree>)
    ensures
        trees(final(out)@) == trees(old(out)@) + arrow(),
{
    push_joint(out, '-', Span::CallSite);
    push_alone(out, '>', Span::CallSite);
    assert(trees(out@) =~= trees(old(out)@) + arrow());
}

} // verus!
