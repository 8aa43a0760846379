//! The expansion of a free function: a marker type that carries the name,
//! and for every signature the three traits that make a value callable,
//! implemented for that type with the signature's parameter types.
//!
//! The marker type has the declared name itself, with nothing added to it.

use crate::emit::{
    arrow, attribute_tokens, constraint_tokens, emit_annotations, emit_arrow, emit_constraint,
    emit_optional, emit_return_type, emit_wrapped_body, name_token, optional_tokens, push_alone,
    push_group, push_joint, push_name, push_tree, push_word, return_type, wrapped_body,
};
use crate::error::{receiver_not_allowed, ExpandError};
use crate::header::{Ident, Name};
use crate::signature::{views, Param, Parameter, ParsedFnDef, Signature};
use crate::token::{
    alone, extend_copy, group, joint, trees, word, Delimiter, Span, TokenTree, Tree,
};
use vstd::prelude::*;

verus! {

/// The types of the parameters, in order.
pub open spec fn types_of(params: Seq<Parameter>) -> Seq<Seq<Tree>> {
    Seq::new(params.len(), |i: int| params[i].ty)
}

/// The patterns of the parameters, in order.
pub open spec fn patterns_of(params: Seq<Parameter>) -> Seq<Seq<Tree>> {
    Seq::new(params.len(), |i: int| params[i].pattern)
}

/// The first `n` of `parts`, each with a comma behind it.
pub open spec fn listed(parts: Seq<Seq<Tree>>, n: nat) -> Seq<Tree>
    decreases n,
{
    if n == 0 || n > parts.len() {
        Seq::empty()
    } else {
        listed(parts, (n - 1) as nat) + parts[n - 1].push(alone(',', Span::CallSite))
    }
}

/// The tuple of `parts`: all of them in parentheses, each with a comma
/// behind it.
pub open spec fn tuple_of(parts: Seq<Seq<Tree>>) -> Tree {
    group(Delimiter::Parenthesis, listed(parts, parts.len()), Span::CallSite)
}

/// The tuple of the types of `params`.
pub fn type_tuple(params: &Vec<Param>) -> (tuple: TokenTree)
    ensures
        tuple@ == tuple_of(types_of(views(params@))),
{
    let ghost parts = types_of(views(params@));
    let mut inner: Vec<TokenTree> = Vec::new();
    let mut i: usize = 0;
    assert(trees(inner@) =~= listed(parts, 0));
    while i < params.len()
        invariant
            i <= params.len(),
            parts == types_of(views(params@)),
            trees(inner@) == listed(parts, i as nat),
        decreases params.len() - i,
    {
        let ghost before = trees(inner@);
        extend_copy(&mut inner, &params[i].ty);
        push_alone(&mut inner, ',', Span::CallSite);
        proof {
            assert(parts[i as int] == params@[i as int]@.ty);
            assert(trees(inner@) =~= before + parts[i as int].push(alone(',', Span::CallSite)));
        }
        i += 1;
    }
    TokenTree::group(Delimiter::Parenthesis, inner, Span::CallSite)
}

/// The tuple of the patterns of `params`.
pub fn pattern_tuple(params: &Vec<Param>) -> (tuple: TokenTree)
    ensures
        tuple@ == tuple_of(patterns_of(views(params@))),
{
    let ghost parts = patterns_of(views(params@));
    let mut inner: Vec<TokenTree> = Vec::new();
    let mut i: usize = 0;
    assert(trees(inner@) =~= listed(parts, 0));
    while i < params.len()
        invariant
            i <= params.len(),
            parts == patterns_of(views(params@)),
            trees(inner@) == listed(parts, i as nat),
        decreases params.len() - i,
    {
        let ghost before = trees(inner@);
        extend_copy(&mut inner, &params[i].pattern);
        push_alone(&mut inner, ',', Span::CallSite);
        proof {
            assert(parts[i as int] == params@[i as int]@.pattern);
            assert(trees(inner@) =~= before + parts[i as int].push(alone(',', Span::CallSite)));
        }
        i += 1;
    }
    TokenTree::group(Delimiter::Parenthesis, inner, Span::CallSite)
}

/// The tokens before the braces of an implementation: `impl`, the generic
/// parameters, the trait `protocol` with the tuple of the parameter types
/// as its argument, `for`, the name, and the `where` clause.
pub open spec fn impl_head(sig: Signature, name: Name, protocol: Seq<char>) -> Seq<Tree> {
    seq![word("impl"@, Span::CallSite)] + optional_tokens(sig.generics) + seq![
        word(protocol, Span::CallSite),
        alone('<', Span::CallSite),
        tuple_of(types_of(sig.params)),
        alone('>', Span::CallSite),
        word("for"@, Span::CallSite),
        name_token(name),
    ] + constraint_tokens(sig.constraint)
}

/// Appends the tokens before the braces of an implementation of `protocol`.
pub fn emit_impl_head(out: &mut Vec<TokenTree>, def: &ParsedFnDef, name: &Ident, protocol: &str)
    ensures
        trees(final(out)@) == trees(old(out)@) + impl_head(def@, name@, protocol@),
{
    push_word(out, "impl", Span::CallSite);
    emit_optional(out, &def.gen);
    let ghost first = trees(out@);
    push_word(out, protocol, Span::CallSite);
    push_alone(out, '<', Span::CallSite);
    push_tree(out, type_tuple(&def.params));
    push_alone(out, '>', Span::CallSite);
    push_word(out, "for", Span::CallSite);
    push_name(out, name);
    let ghost second = trees(out@);
    emit_constraint(out, &def.w_clause);
    proof {
        assert(first =~= trees(old(out)@) + (seq![word("impl"@, Span::CallSite)]
            + optional_tokens(def@.generics)));
        assert(second =~= first + seq![
            word(protocol@, Span::CallSite),
            alone('<', Span::CallSite),
            tuple_of(types_of(def@.params)),
            alone('>', Span::CallSite),
            word("for"@, Span::CallSite),
            name_token(name@),
        ]);
        assert(trees(out@) =~= trees(old(out)@) + impl_head(def@, name@, protocol@));
    }
}

/// The start of a method of the three traits: `extern "rust-call" fn` and
/// the name of the method.
pub open spec fn method_head(method: Seq<char>) -> Seq<Tree> {
    seq![
        word("extern"@, Span::CallSite),
        Tree::Literal { text: "\"rust-call\""@, span: Span::CallSite },
        word("fn"@, Span::CallSite),
        word(method, Span::CallSite),
    ]
}

/// Appends the start of the method `method`.
pub fn emit_method_head(out: &mut Vec<TokenTree>, method: &str)
    ensures
        trees(final(out)@) == trees(old(out)@) + method_head(method@),
{
    push_word(out, "extern", Span::CallSite);
    push_tree(out, TokenTree::literal("\"rust-call\"", Span::CallSite));
    push_word(out, "fn", Span::CallSite);
    push_word(out, method, Span::CallSite);
    assert(trees(out@) =~= trees(old(out)@) + method_head(method@));
}

/// The result of a method of the three traits: `-> Self::Output`.
pub open spec fn output() -> Seq<Tree> {
    arrow() + seq![
        word("Self"@, Span::CallSite),
        joint(':', Span::CallSite),
        alone(':', Span::CallSite),
        word("Output"@, Span::CallSite),
    ]
}

/// Appends `-> Self::Output`.
pub fn emit_output(out: &mut Vec<TokenTree>)
    ensures
        trees(final(out)@) == trees(old(out)@) + output(),
{
    emit_arrow(out);
    push_word(out, "Self", Span::CallSite);
    push_joint(out, ':', Span::CallSite);
    push_alone(out, ':', Span::CallSite);
    push_word(out, "Output", Span::CallSite);
    assert(trees(out@) =~= trees(old(out)@) + output());
}

/// The body of the two methods that hand their argument on: `{ self.call(x) }`.
pub open spec fn forwarding() -> Tree {
    group(
        Delimiter::Brace,
        seq![
            word("self"@, Span::CallSite),
            alone('.', Span::CallSite),
            word("call"@, Span::CallSite),
            group(Delimiter::Parenthesis, seq![word("x"@, Span::CallSite)], Span::CallSite),
        ],
        Span::CallSite,
    )
}

/// Appends `{ self.call(x) }`.
pub fn emit_forwarding(out: &mut Vec<TokenTree>)
    ensures
        trees(final(out)@) == trees(old(out)@).push(forwarding()),
{
    let mut argument: Vec<TokenTree> = Vec::new();
    push_word(&mut argument, "x", Span::CallSite);
    assert(trees(argument@) =~= seq![word("x"@, Span::CallSite)]);
    let mut inner: Vec<TokenTree> = Vec::new();
    push_word(&mut inner, "self", Span::CallSite);
    push_alone(&mut inner, '.', Span::CallSite);
    push_word(&mut inner, "call", Span::CallSite);
    push_group(&mut inner, Delimiter::Parenthesis, argument, Span::CallSite);
    assert(trees(inner@) =~= forwarding().inner());
    push_group(out, Delimiter::Brace, inner, Span::CallSite);
}

/// The parameters of `call`: `&self`, and the tuple of the patterns with the
/// tuple of the types as its type.
pub open spec fn call_params(sig: Signature) -> Tree {
    group(
        Delimiter::Parenthesis,
        seq![
            alone('&', Span::CallSite),
            word("self"@, Span::CallSite),
            alone(',', Span::CallSite),
            tuple_of(patterns_of(sig.params)),
            alone(':', Span::CallSite),
            tuple_of(types_of(sig.params)),
        ],
        Span::CallSite,
    )
}

/// The parameters of `call_once`: `self`, and `x` with the tuple of the
/// types as its type.
pub open spec fn call_once_params(sig: Signature) -> Tree {
    group(
        Delimiter::Parenthesis,
        seq![
            word("self"@, Span::CallSite),
            alone(',', Span::CallSite),
            word("x"@, Span::CallSite),
            alone(':', Span::CallSite),
            tuple_of(types_of(sig.params)),
        ],
        Span::CallSite,
    )
}

/// The parameters of `call_mut`: `&mut self`, and `x` with the tuple of the
/// types as its type.
pub open spec fn call_mut_params(sig: Signature) -> Tree {
    group(
        Delimiter::Parenthesis,
        seq![
            alone('&', Span::CallSite),
            word("mut"@, Span::CallSite),
            word("self"@, Span::CallSite),
            alone(',', Span::CallSite),
            word("x"@, Span::CallSite),
            alone(':', Span::CallSite),
            tuple_of(types_of(sig.params)),
        ],
        Span::CallSite,
    )
}

/// What the implementation of `Fn` holds: the annotations and the method
/// `call`, whose body is the body of the signature.
pub open spec fn call_items(sig: Signature) -> Seq<Tree> {
    attribute_tokens(sig.attrs, sig.attrs.len()) + method_head("call"@) + seq![call_params(sig)]
        + output() + seq![wrapped_body(sig)]
}

/// What the implementation of `FnOnce` holds: the type `Output`, which is
/// the return type of the signature, the annotations, and the method
/// `call_once`, which hands its argument on to `call`.
pub open spec fn call_once_items(sig: Signature) -> Seq<Tree> {
    seq![
        word("type"@, Span::CallSite),
        word("Output"@, Span::CallSite),
        alone('=', Span::CallSite),
    ] + return_type(sig) + seq![alone(';', Span::CallSite)] + attribute_tokens(
        sig.attrs,
        sig.attrs.len(),
    ) + method_head("call_once"@) + seq![call_once_params(sig)] + output() + seq![forwarding()]
}

/// What the implementation of `FnMut` holds: the annotations and the method
/// `call_mut`, which hands its argument on to `call`.
pub open spec fn call_mut_items(sig: Signature) -> Seq<Tree> {
    attribute_tokens(sig.attrs, sig.attrs.len()) + method_head("call_mut"@) + seq![
        call_mut_params(sig),
    ] + output() + seq![forwarding()]
}

/// The items of the implementation of `Fn` for `def`.
pub fn fn_items(def: &ParsedFnDef) -> (items: Vec<TokenTree>)
    ensures
        trees(items@) == call_items(def@),
{
    let mut params: Vec<TokenTree> = Vec::new();
    push_alone(&mut params, '&', Span::CallSite);
    push_word(&mut params, "self", Span::CallSite);
    push_alone(&mut params, ',', Span::CallSite);
    push_tree(&mut params, pattern_tuple(&def.params));
    push_alone(&mut params, ':', Span::CallSite);
    push_tree(&mut params, type_tuple(&def.params));
    assert(trees(params@) =~= call_params(def@).inner());
    let mut items: Vec<TokenTree> = Vec::new();
    emit_annotations(&mut items, &def.meta);
    emit_method_head(&mut items, "call");
    push_group(&mut items, Delimiter::Parenthesis, params, Span::CallSite);
    emit_output(&mut items);
    emit_wrapped_body(&mut items, def);
    assert(trees(items@) =~= call_items(def@));
    items
}

/// The items of the implementation of `FnOnce` for `def`.
pub fn fn_once_items(def: &ParsedFnDef) -> (items: Vec<TokenTree>)
    ensures
        trees(items@) == call_once_items(def@),
{
    let mut params: Vec<TokenTree> = Vec::new();
    push_word(&mut params, "self", Span::CallSite);
    push_alone(&mut params, ',', Span::CallSite);
    push_word(&mut params, "x", Span::CallSite);
    push_alone(&mut params, ':', Span::CallSite);
    push_tree(&mut params, type_tuple(&def.params));
    assert(trees(params@) =~= call_once_params(def@).inner());
    let mut items: Vec<TokenTree> = Vec::new();
    push_word(&mut items, "type", Span::CallSite);
    push_word(&mut items, "Output", Span::CallSite);
    push_alone(&mut items, '=', Span::CallSite);
    emit_return_type(&mut items, def);
    push_alone(&mut items, ';', Span::CallSite);
    let ghost first = trees(items@);
    assert(first =~= seq![
        word("type"@, Span::CallSite),
        word("Output"@, Span::CallSite),
        alone('=', Span::CallSite),
    ] + return_type(def@) + seq![alone(';', Span::CallSite)]);
    emit_annotations(&mut items, &def.meta);
    emit_method_head(&mut items, "call_once");
    push_group(&mut items, Delimiter::Parenthesis, params, Span::CallSite);
    emit_output(&mut items);
    emit_forwarding(&mut items);
    assert(trees(items@) =~= call_once_items(def@));
    items
}

/// The items of the implementation of `FnMut` for `def`.
pub fn fn_mut_items(def: &ParsedFnDef) -> (items: Vec<TokenTree>)
    ensures
        trees(items@) == call_mut_items(def@),
{
    let mut params: Vec<TokenTree> = Vec::new();
    push_alone(&mut params, '&', Span::CallSite);
    push_word(&mut params, "mut", Span::CallSite);
    push_word(&mut params, "self", Span::CallSite);
    push_alone(&mut params, ',', Span::CallSite);
    push_word(&mut params, "x", Span::CallSite);
    push_alone(&mut params, ':', Span::CallSite);
    push_tree(&mut params, type_tuple(&def.params));
    assert(trees(params@) =~= call_mut_params(def@).inner());
    let mut items: Vec<TokenTree> = Vec::new();
    emit_annotations(&mut items, &def.meta);
    emit_method_head(&mut items, "call_mut");
    push_group(&mut items, Delimiter::Parenthesis, params, Span::CallSite);
    emit_output(&mut items);
    emit_forwarding(&mut items);
    assert(trees(items@) =~= call_mut_items(def@));
    items
}

/// The three implementations for one signature: of `Fn`, of `FnOnce` and of
/// `FnMut`, in this order.
pub open spec fn free_impls(sig: Signature, name: Name) -> Seq<Tree> {
    impl_head(sig, name, "Fn"@) + seq![group(Delimiter::Brace, call_items(sig), Span::CallSite)]
        + impl_head(sig, name, "FnOnce"@) + seq![
        group(Delimiter::Brace, call_once_items(sig), Span::CallSite),
    ] + impl_head(sig, name, "FnMut"@) + seq![
        group(Delimiter::Brace, call_mut_items(sig), Span::CallSite),
    ]
}

/// Appends the three implementations for `def`.
pub fn emit_free_impls(out: &mut Vec<TokenTree>, def: &ParsedFnDef, name: &Ident)
    ensures
        trees(final(out)@) == trees(old(out)@) + free_impls(def@, name@),
{
    emit_impl_head(out, def, name, "Fn");
    push_group(out, Delimiter::Brace, fn_items(def), Span::CallSite);
    emit_impl_head(out, def, name, "FnOnce");
    push_group(out, Delimiter::Brace, fn_once_items(def), Span::CallSite);
    emit_impl_head(out, def, name, "FnMut");
    push_group(out, Delimiter::Brace, fn_mut_items(def), Span::CallSite);
    assert(trees(out@) =~= trees(old(out)@) + free_impls(def@, name@));
}

/// The implementations for the first `n` signatures, one after the other.
pub open spec fn free_impls_of(sigs: Seq<Signature>, name: Name, n: nat) -> Seq<Tree>
    decreases n,
{
    if n == 0 || n > sigs.len() {
        Seq::empty()
    } else {
        free_impls_of(sigs, name, (n - 1) as nat) + free_impls(sigs[n - 1], name)
    }
}

/// The first among the first `n` signatures that has a `self` parameter.
pub open spec fn first_receiver(sigs: Seq<Signature>, n: nat) -> Option<int>
    decreases n,
{
    if n == 0 || n > sigs.len() {
        None
    } else {
        match first_receiver(sigs, (n - 1) as nat) {
            Some(i) => Some(i),
            None => if sigs[n - 1].receiver is Some {
                Some(n - 1)
            } else {
                None
            },
        }
    }
}

/// What is found among the first `m` signatures is found among the first `n`.
pub proof fn lemma_first_receiver_stays(sigs: Seq<Signature>, m: nat, n: nat)
    requires
        m <= n <= sigs.len(),
        first_receiver(sigs, m) is Some,
    ensures
        first_receiver(sigs, n) == first_receiver(sigs, m),
    decreases n,
{
    if m < n {
        lemma_first_receiver_stays(sigs, m, (n - 1) as nat);
    }
}

/// The implementations for all the signatures of a free function; and the
/// refusal of the first signature that has a `self` parameter, at the span of
/// its parameter list.
pub open spec fn free_decls(sigs: Seq<Signature>, name: Name) -> Result<Seq<Tree>, ExpandError> {
    match first_receiver(sigs, sigs.len()) {
        Some(i) => Err(receiver_not_allowed(sigs[i].paren)),
        None => Ok(free_impls_of(sigs, name, sigs.len())),
    }
}

/// Writes the implementations that make `name` callable with the parameters
/// of every one of `fns`.
pub fn gen_fn_decls(fns: &Vec<ParsedFnDef>, name: &Ident) -> (r: Result<
    Vec<TokenTree>,
    ExpandError,
>)
    ensures
        match r {
            Ok(out) => free_decls(views(fns@), name@) == Ok::<Seq<Tree>, ExpandError>(trees(out@)),
            Err(e) => free_decls(views(fns@), name@) == Err::<Seq<Tree>, ExpandError>(e),
        },
{
    let ghost sigs = views(fns@);
    let mut out: Vec<TokenTree> = Vec::new();
    let mut i: usize = 0;
    assert(trees(out@) =~= free_impls_of(sigs, name@, 0));
    while i < fns.len()
        invariant
            i <= fns.len(),
            sigs == views(fns@),
            first_receiver(sigs, i as nat) is None,
            trees(out@) == free_impls_of(sigs, name@, i as nat),
        decreases fns.len() - i,
    {
        assert(sigs[i as int] == fns@[i as int]@);
        if fns[i].this.is_some() {
            proof {
                assert(first_receiver(sigs, (i + 1) as nat) == Some(i as int));
                lemma_first_receiver_stays(sigs, (i + 1) as nat, sigs.len());
            }
            return Err(ExpandError::receiver(fns[i].paren));
        }
        emit_free_impls(&mut out, &fns[i], name);
        i += 1;
    }
    Ok(out)
}

/// A hidden attribute: `#[word(argument)]`, every token at `span`.
pub open spec fn hidden_attribute(word_text: Seq<char>, argument: Seq<char>, span: Span) -> Seq<
    Tree,
> {
    seq![
        alone('#', span),
        group(
            Delimiter::Bracket,
            seq![
                word(word_text, span),
                group(Delimiter::Parenthesis, seq![word(argument, span)], span),
            ],
            span,
        ),
    ]
}

/// Appends the attribute `#[word(argument)]`, every token at `span`.
pub fn emit_hidden_attribute(out: &mut Vec<TokenTree>, word_text: &str, argument: &str, span: Span)
    ensures
        trees(final(out)@) == trees(old(out)@) + hidden_attribute(word_text@, argument@, span),
{
    let mut inner: Vec<TokenTree> = Vec::new();
    push_word(&mut inner, argument, span);
    assert(trees(inner@) =~= seq![word(argument@, span)]);
    let mut outer: Vec<TokenTree> = Vec::new();
    push_word(&mut outer, word_text, span);
    push_group(&mut outer, Delimiter::Parenthesis, inner, span);
    assert(trees(outer@) =~= seq![
        word(word_text@, span),
        group(Delimiter::Parenthesis, seq![word(argument@, span)], span),
    ]);
    push_alone(out, '#', span);
    push_group(out, Delimiter::Bracket, outer, span);
    assert(trees(out@) =~= trees(old(out)@) + hidden_attribute(word_text@, argument@, span));
}

/// The declaration of the marker type: a unit struct of the declared name
/// and visibility, hidden from the documentation and free of the warnings
/// that its name and its idleness would draw. What the expansion adds is at
/// the span of the name.
pub open spec fn marker(vis: Seq<Tree>, name: Name) -> Seq<Tree> {
    hidden_attribute("doc"@, "hidden"@, name.span) + hidden_attribute(
        "allow"@,
        "non_camel_case_types"@,
        name.span,
    ) + hidden_attribute("allow"@, "dead_code"@, name.span) + vis + seq![
        word("struct"@, name.span),
        name_token(name),
        alone(';', name.span),
    ]
}

/// Appends the declaration of the marker type.
pub fn emit_marker(out: &mut Vec<TokenTree>, vis: &Vec<TokenTree>, name: &Ident)
    ensures
        trees(final(out)@) == trees(old(out)@) + marker(trees(vis@), name@),
{
    emit_hidden_attribute(out, "doc", "hidden", name.span);
    emit_hidden_attribute(out, "allow", "non_camel_case_types", name.span);
    emit_hidden_attribute(out, "allow", "dead_code", name.span);
    extend_copy(out, vis);
    push_word(out, "struct", name.span);
    push_name(out, name);
    push_alone(out, ';', name.span);
    assert(trees(out@) =~= trees(old(out)@) + marker(trees(vis@), name@));
}

} // verus!
