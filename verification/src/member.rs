//! The expansion of members: for every signature a trait of its own with one
//! method of the declared name, and its implementation for the owner.
//!
//! The traits are named after the owner, the word `Trait` and the place of
//! the signature in the declaration, counted from zero.

use crate::emit::{
    arrow, attribute_tokens, constraint_tokens, emit_annotations, emit_arrow, emit_constraint,
    emit_optional, emit_return_type, emit_wrapped_body, name_token, optional_tokens, push_alone,
    push_group, push_name, push_tree, push_word, return_type, wrapped_body,
};
use crate::error::ExpandError;
use crate::header::{Ident, Name};
use crate::signature::{
    sized_dependent, views, Param, Parameter, ParsedFnDef, Receiver, Signature, ThisDef,
};
use crate::text::{decimal, write_decimal};
use crate::token::{
    alone, extend_copy, group, marked, span_at, span_of, trees, word, Delimiter, Mark, Span,
    TokenTree, Tree,
};
use vstd::prelude::*;

verus! {

/// The word `text` at the span, where there is one.
pub open spec fn optional_word(text: Seq<char>, span: Option<Span>) -> Seq<Tree> {
    match span {
        Some(s) => seq![word(text, s)],
        None => Seq::empty(),
    }
}

/// The punctuation character `ch` as it was written, where it was.
pub open spec fn optional_punct(ch: char, mark: Option<Mark>) -> Seq<Tree> {
    match mark {
        Some(m) => seq![marked(ch, m)],
        None => Seq::empty(),
    }
}

/// The `self` parameter, written again: every word at the span it was read
/// with, and every punctuation character and the tokens of the type as they
/// were.
pub open spec fn receiver_tokens(receiver: Receiver) -> Seq<Tree> {
    match receiver {
        Receiver::Explicit { mutability, this, colon, ty, comma } => optional_word(
            "mut"@,
            mutability,
        ) + seq![word("self"@, this), marked(':', colon)] + ty + optional_punct(',', comma),
        Receiver::Implicit { reference, mutability, this, comma } => optional_punct(
            '&',
            reference,
        ) + optional_word("mut"@, mutability) + seq![word("self"@, this)] + optional_punct(
            ',',
            comma,
        ),
    }
}

/// The `self` parameter that may be absent, written again.
pub open spec fn optional_receiver_tokens(receiver: Option<Receiver>) -> Seq<Tree> {
    match receiver {
        Some(r) => receiver_tokens(r),
        None => Seq::empty(),
    }
}

/// Appends the word `text` at the span, where there is one.
pub fn emit_optional_word(out: &mut Vec<TokenTree>, text: &str, span: &Option<Span>)
    ensures
        trees(final(out)@) == trees(old(out)@) + optional_word(text@, *span),
{
    match span {
        Some(s) => {
            push_word(out, text, *s);
            assert(trees(out@) =~= trees(old(out)@) + optional_word(text@, *span));
        },
        None => {
            assert(trees(out@) =~= trees(old(out)@) + optional_word(text@, *span));
        },
    }
}

/// Appends the punctuation character `ch` as it was written, where it was.
pub fn emit_optional_punct(out: &mut Vec<TokenTree>, ch: char, mark: &Option<Mark>)
    ensures
        trees(final(out)@) == trees(old(out)@) + optional_punct(ch, *mark),
{
    match mark {
        Some(m) => {
            push_tree(out, TokenTree::punct(ch, m.spacing, m.span));
            assert(trees(out@) =~= trees(old(out)@) + optional_punct(ch, *mark));
        },
        None => {
            assert(trees(out@) =~= trees(old(out)@) + optional_punct(ch, *mark));
        },
    }
}

impl ThisDef {
    /// Appends the `self` parameter, written again, to `tokens`.
    pub fn to_tokens(&self, tokens: &mut Vec<TokenTree>)
        ensures
            trees(final(tokens)@) == trees(old(tokens)@) + receiver_tokens(self@),
    {
        match self {
            ThisDef::Explicit { mutability, this, colon, ty, comma } => {
                emit_optional_word(tokens, "mut", mutability);
                push_word(tokens, "self", *this);
                push_tree(tokens, TokenTree::punct(':', colon.spacing, colon.span));
                extend_copy(tokens, ty);
                emit_optional_punct(tokens, ',', comma);
                assert(trees(tokens@) =~= trees(old(tokens)@) + receiver_tokens(self@));
            },
            ThisDef::Implicit { reference, mutability, this, comma } => {
                emit_optional_punct(tokens, '&', reference);
                emit_optional_word(tokens, "mut", mutability);
                push_word(tokens, "self", *this);
                emit_optional_punct(tokens, ',', comma);
                assert(trees(tokens@) =~= trees(old(tokens)@) + receiver_tokens(self@));
            },
        }
    }
}

/// The name of the trait for the signature at `index`: the owner's name, the
/// word `Trait` and the decimal numeral of `index`, at the owner's span.
pub open spec fn trait_name(owner: Name, index: nat) -> Tree {
    word(owner.text + "Trait"@ + decimal(index), owner.span)
}

/// The name of the trait for the signature at `index`.
pub fn make_trait_name(owner: &Ident, index: usize) -> (name: TokenTree)
    ensures
        name@ == trait_name(owner@, index as nat),
{
    let mut text = owner.text.clone();
    text.append("Trait");
    write_decimal(&mut text, index);
    TokenTree::Ident { text, span: owner.span }
}

/// The name that stands for the parameter at `index` in the declaration of
/// a trait: `_` and the decimal numeral of `index`, at the span of the first
/// token of the pattern.
pub open spec fn placeholder(index: nat, pattern: Seq<Tree>) -> Tree {
    word("_"@ + decimal(index), span_at(pattern, 0, Span::CallSite))
}

/// A parameter as the declaration of a trait has it: its placeholder, a
/// colon and its type.
pub open spec fn trait_param(param: Parameter, index: nat) -> Seq<Tree> {
    seq![placeholder(index, param.pattern), alone(':', Span::CallSite)] + param.ty
}

/// A parameter as the implementation has it: its pattern, a colon and its
/// type.
pub open spec fn impl_param(param: Parameter) -> Seq<Tree> {
    param.pattern + seq![alone(':', Span::CallSite)] + param.ty
}

/// The first `n` parameters as the declaration of a trait has them, with a
/// comma between each two.
pub open spec fn trait_params(params: Seq<Parameter>, n: nat) -> Seq<Tree>
    decreases n,
{
    if n == 0 || n > params.len() {
        Seq::empty()
    } else if n == 1 {
        trait_param(params[0], 0)
    } else {
        trait_params(params, (n - 1) as nat) + seq![alone(',', Span::CallSite)] + trait_param(
            params[n - 1],
            (n - 1) as nat,
        )
    }
}

/// The first `n` parameters as the implementation has them, with a comma
/// between each two.
pub open spec fn impl_params(params: Seq<Parameter>, n: nat) -> Seq<Tree>
    decreases n,
{
    if n == 0 || n > params.len() {
        Seq::empty()
    } else if n == 1 {
        impl_param(params[0])
    } else {
        impl_params(params, (n - 1) as nat) + seq![alone(',', Span::CallSite)] + impl_param(
            params[n - 1],
        )
    }
}

/// Appends the parameters as the declaration of a trait has them.
pub fn emit_trait_params(out: &mut Vec<TokenTree>, params: &Vec<Param>)
    ensures
        trees(final(out)@) == trees(old(out)@) + trait_params(
            views(params@),
            params.len() as nat,
        ),
{
    let ghost models = views(params@);
    let mut i: usize = 0;
    assert(trees(out@) =~= trees(old(out)@) + trait_params(models, 0));
    while i < params.len()
        invariant
            i <= params.len(),
            models == views(params@),
            trees(out@) == trees(old(out)@) + trait_params(models, i as nat),
        decreases params.len() - i,
    {
        let ghost before = trees(out@);
        if i > 0 {
            push_alone(out, ',', Span::CallSite);
        }
        let mut text = String::from_str("_");
        write_decimal(&mut text, i);
        let stand_in = TokenTree::Ident { text, span: span_of(&params[i].pattern, 0, Span::CallSite) };
        push_tree(out, stand_in);
        push_alone(out, ':', Span::CallSite);
        extend_copy(out, &params[i].ty);
        proof {
            assert(models[i as int] == params@[i as int]@);
            assert(stand_in@ == placeholder(i as nat, models[i as int].pattern));
            if i > 0 {
                assert(trees(out@) =~= before + seq![alone(',', Span::CallSite)] + trait_param(
                    models[i as int],
                    i as nat,
                ));
            } else {
                assert(trees(out@) =~= before + trait_param(models[i as int], i as nat));
                assert(before =~= trees(old(out)@));
            }
            assert(trees(out@) =~= trees(old(out)@) + trait_params(models, (i + 1) as nat));
        }
        i += 1;
    }
}

/// Appends the parameters as the implementation has them.
pub fn emit_impl_params(out: &mut Vec<TokenTree>, params: &Vec<Param>)
    ensures
        trees(final(out)@) == trees(old(out)@) + impl_params(views(params@), params.len() as nat),
{
    let ghost models = views(params@);
    let mut i: usize = 0;
    assert(trees(out@) =~= trees(old(out)@) + impl_params(models, 0));
    while i < params.len()
        invariant
            i <= params.len(),
            models == views(params@),
            trees(out@) == trees(old(out)@) + impl_params(models, i as nat),
        decreases params.len() - i,
    {
        let ghost before = trees(out@);
        if i > 0 {
            push_alone(out, ',', Span::CallSite);
        }
        extend_copy(out, &params[i].pattern);
        push_alone(out, ':', Span::CallSite);
        extend_copy(out, &params[i].ty);
        proof {
            assert(models[i as int] == params@[i as int]@);
            if i > 0 {
                assert(trees(out@) =~= before + seq![alone(',', Span::CallSite)] + impl_param(
                    models[i as int],
                ));
            } else {
                assert(trees(out@) =~= before + impl_param(models[i as int]));
                assert(before =~= trees(old(out)@));
            }
            assert(trees(out@) =~= trees(old(out)@) + impl_params(models, (i + 1) as nat));
        }
        i += 1;
    }
}

/// The signature of the method, with `params` as its parameters behind the
/// `self` parameter: `fn`, the declared name, the generic parameters, the
/// parameter list, `->`, the return type and the `where` clause.
pub open spec fn method_signature(sig: Signature, name: Name, params: Seq<Tree>) -> Seq<Tree> {
    seq![word("fn"@, Span::CallSite), name_token(name)] + optional_tokens(sig.generics) + seq![
        group(
            Delimiter::Parenthesis,
            optional_receiver_tokens(sig.receiver) + params,
            Span::CallSite,
        ),
    ] + arrow() + return_type(sig) + constraint_tokens(sig.constraint)
}

/// Appends the signature of the method; `in_trait` says whether the
/// parameters are those of the declaration of the trait or those of the
/// implementation.
pub fn emit_method_signature(
    out: &mut Vec<TokenTree>,
    def: &ParsedFnDef,
    name: &Ident,
    in_trait: bool,
)
    ensures
        trees(final(out)@) == trees(old(out)@) + method_signature(
            def@,
            name@,
            if in_trait {
                trait_params(def@.params, def@.params.len())
            } else {
                impl_params(def@.params, def@.params.len())
            },
        ),
{
    let ghost params = if in_trait {
        trait_params(def@.params, def@.params.len())
    } else {
        impl_params(def@.params, def@.params.len())
    };
    let mut list: Vec<TokenTree> = Vec::new();
    match &def.this {
        Some(this) => {
            this.to_tokens(&mut list);
        },
        None => {},
    }
    assert(trees(list@) =~= optional_receiver_tokens(def@.receiver));
    if in_trait {
        emit_trait_params(&mut list, &def.params);
    } else {
        emit_impl_params(&mut list, &def.params);
    }
    push_word(out, "fn", Span::CallSite);
    push_name(out, name);
    emit_optional(out, &def.gen);
    push_group(out, Delimiter::Parenthesis, list, Span::CallSite);
    let ghost first = trees(out@);
    assert(first =~= trees(old(out)@) + (seq![word("fn"@, Span::CallSite), name_token(name@)]
        + optional_tokens(def@.generics) + seq![
        group(
            Delimiter::Parenthesis,
            optional_receiver_tokens(def@.receiver) + params,
            Span::CallSite,
        ),
    ]));
    emit_arrow(out);
    emit_return_type(out, def);
    emit_constraint(out, &def.w_clause);
    assert(trees(out@) =~= trees(old(out)@) + method_signature(def@, name@, params));
}

/// The bound of the trait: `Sized` where the signature takes `self` by value
/// without a type of its own, and nothing otherwise.
pub open spec fn sized_bound(sig: Signature) -> Seq<Tree> {
    if sized_dependent(sig.receiver) {
        seq![word("Sized"@, Span::CallSite)]
    } else {
        Seq::empty()
    }
}

/// The declaration of the trait for the signature at `index`: the
/// visibility, `trait`, the name of the trait, a colon and the bound, and in
/// braces the signature of the method and a semicolon.
pub open spec fn trait_decl(vis: Seq<Tree>, owner: Name, name: Name, sig: Signature, index: nat) -> Seq<
    Tree,
> {
    vis + seq![
        word("trait"@, Span::CallSite),
        trait_name(owner, index),
        alone(':', Span::CallSite),
    ] + sized_bound(sig) + seq![
        group(
            Delimiter::Brace,
            method_signature(sig, name, trait_params(sig.params, sig.params.len())).push(
                alone(';', Span::CallSite),
            ),
            Span::CallSite,
        ),
    ]
}

/// The implementation of the trait for the signature at `index`: `impl`, the
/// name of the trait, `for`, the owner, and in braces the annotations, the
/// signature of the method and its body.
pub open spec fn trait_impl(owner: Name, name: Name, sig: Signature, index: nat) -> Seq<Tree> {
    seq![
        word("impl"@, Span::CallSite),
        trait_name(owner, index),
        word("for"@, Span::CallSite),
        name_token(owner),
        group(
            Delimiter::Brace,
            (attribute_tokens(sig.attrs, sig.attrs.len()) + method_signature(
                sig,
                name,
                impl_params(sig.params, sig.params.len()),
            )).push(wrapped_body(sig)),
            Span::CallSite,
        ),
    ]
}

/// The trait and its implementation for the signature at `index`.
pub open spec fn member_items(vis: Seq<Tree>, owner: Name, name: Name, sig: Signature, index: nat) -> Seq<
    Tree,
> {
    trait_decl(vis, owner, name, sig, index) + trait_impl(owner, name, sig, index)
}

/// Appends the trait and its implementation for `def`, the signature at
/// `index`.
pub fn emit_member_items(
    out: &mut Vec<TokenTree>,
    vis: &Vec<TokenTree>,
    owner: &Ident,
    name: &Ident,
    def: &ParsedFnDef,
    index: usize,
)
    ensures
        trees(final(out)@) == trees(old(out)@) + member_items(
            trees(vis@),
            owner@,
            name@,
            def@,
            index as nat,
        ),
{
    let mut declared: Vec<TokenTree> = Vec::new();
    emit_method_signature(&mut declared, def, name, true);
    push_alone(&mut declared, ';', Span::CallSite);
    assert(trees(declared@) =~= method_signature(
        def@,
        name@,
        trait_params(def@.params, def@.params.len()),
    ).push(alone(';', Span::CallSite)));
    let mut defined: Vec<TokenTree> = Vec::new();
    emit_annotations(&mut defined, &def.meta);
    emit_method_signature(&mut defined, def, name, false);
    emit_wrapped_body(&mut defined, def);
    assert(trees(defined@) =~= (attribute_tokens(def@.attrs, def@.attrs.len())
        + method_signature(def@, name@, impl_params(def@.params, def@.params.len()))).push(
        wrapped_body(def@),
    ));

    extend_copy(out, vis);
    push_word(out, "trait", Span::CallSite);
    push_tree(out, make_trait_name(owner, index));
    push_alone(out, ':', Span::CallSite);
    if ThisDef::is_sized_dependent(&def.this) {
        push_word(out, "Sized", Span::CallSite);
    }
    push_group(out, Delimiter::Brace, declared, Span::CallSite);
    let ghost first = trees(out@);
    assert(first =~= trees(old(out)@) + trait_decl(trees(vis@), owner@, name@, def@, index as nat));
    push_word(out, "impl", Span::CallSite);
    push_tree(out, make_trait_name(owner, index));
    push_word(out, "for", Span::CallSite);
    push_name(out, owner);
    push_group(out, Delimiter::Brace, defined, Span::CallSite);
    assert(trees(out@) =~= first + trait_impl(owner@, name@, def@, index as nat));
    assert(trees(out@) =~= trees(old(out)@) + member_items(
        trees(vis@),
        owner@,
        name@,
        def@,
        index as nat,
    ));
}

/// The traits and implementations for the first `n` signatures, one after
/// the other.
pub open spec fn member_items_of(
    vis: Seq<Tree>,
    owner: Name,
    name: Name,
    sigs: Seq<Signature>,
    n: nat,
) -> Seq<Tree>
    decreases n,
{
    if n == 0 || n > sigs.len() {
        Seq::empty()
    } else {
        member_items_of(vis, owner, name, sigs, (n - 1) as nat) + member_items(
            vis,
            owner,
            name,
            sigs[n - 1],
            (n - 1) as nat,
        )
    }
}

/// The traits and implementations for all the signatures of a declaration of
/// members.
pub open spec fn member_decls(vis: Seq<Tree>, owner: Name, name: Name, sigs: Seq<Signature>) -> Seq<
    Tree,
> {
    member_items_of(vis, owner, name, sigs, sigs.len())
}

/// Writes, for every one of `fns`, a trait with the method `name` and its
/// implementation for `struct_name`. This never fails.
pub fn gen_trait_fn_decls(
    fns: &Vec<ParsedFnDef>,
    name: &Ident,
    struct_name: &Ident,
    vis: &Vec<TokenTree>,
) -> (r: Result<Vec<TokenTree>, ExpandError>)
    ensures
        r matches Ok(out) && trees(out@) == member_decls(
            trees(vis@),
            struct_name@,
            name@,
            views(fns@),
        ),
{
    let ghost sigs = views(fns@);
    let mut out: Vec<TokenTree> = Vec::new();
    let mut i: usize = 0;
    assert(trees(out@) =~= member_items_of(trees(vis@), struct_name@, name@, sigs, 0));
    while i < fns.len()
        invariant
            i <= fns.len(),
            sigs == views(fns@),
            trees(out@) == member_items_of(trees(vis@), struct_name@, name@, sigs, i as nat),
        decreases fns.len() - i,
    {
        assert(sigs[i as int] == fns@[i as int]@);
        emit_member_items(&mut out, vis, struct_name, name, &fns[i], i);
        i += 1;
    }
    Ok(out)
}

} // verus!
