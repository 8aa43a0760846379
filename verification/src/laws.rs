//! What holds of every declaration and every expansion.

use crate::emit::return_type;
use crate::error::{ErrorKind, ExpandError};
use crate::free::{
    call_mut_params, call_once_items, call_once_params, call_params, first_receiver, free_decls,
    impl_head, listed, patterns_of, tuple_of, types_of,
};
use crate::header::{free_form, Name};
use crate::member::{receiver_tokens, trait_decl, trait_impl, trait_name};
use crate::parser::{is_reading, receiver_of, return_at};
use crate::signature::{ParsedFnDef, Signature};
use crate::text::{decimal, digit};
use crate::token::{alone, group, pair_at, trees, word, Delimiter, Span, TokenTree, Tree};
use crate::free_expansion;
use vstd::prelude::*;

verus! {

/// Reading the same tokens again gives the same: two readings of token
/// sequences with the same model either both fail, with the same failure, or
/// both give a signature, with the same model, field by field, and end at
/// the same place.
pub proof fn reading_again_gives_the_same(
    first: Result<(ParsedFnDef, usize), ExpandError>,
    second: Result<(ParsedFnDef, usize), ExpandError>,
    tokens: Seq<TokenTree>,
    again: Seq<TokenTree>,
    pos: int,
    end: Span,
)
    requires
        trees(tokens) == trees(again),
        is_reading(first, tokens, pos, end),
        is_reading(second, again, pos, end),
    ensures
        match (first, second) {
            (Ok((a, m)), Ok((b, n))) => a@ == b@ && m == n,
            (Err(e), Err(f)) => e == f,
            _ => false,
        },
{
}

/// A `self` parameter is forwarded as it stands: written again, it is the
/// very tokens that it was read from, the comma behind it with it.
pub proof fn receiver_is_forwarded(p: Seq<Tree>)
    ensures
        receiver_of(p) matches Some((receiver, next)) ==> 0 <= next <= p.len() && receiver_tokens(
            receiver,
        ) == p.subrange(0, next),
{
    if let Some((receiver, next)) = receiver_of(p) {
        assert(receiver_tokens(receiver) =~= p.subrange(0, next));
    }
}

/// The number of tokens in the first `n` of `parts`.
pub open spec fn token_count(parts: Seq<Seq<Tree>>, n: nat) -> nat
    decreases n,
{
    if n == 0 || n > parts.len() {
        0
    } else {
        token_count(parts, (n - 1) as nat) + parts[n - 1].len()
    }
}

/// A list of `n` parts holds their tokens and `n` commas.
pub proof fn lemma_listed_len(parts: Seq<Seq<Tree>>, n: nat)
    requires
        n <= parts.len(),
    ensures
        listed(parts, n).len() == token_count(parts, n) + n,
    decreases n,
{
    if n > 0 {
        lemma_listed_len(parts, (n - 1) as nat);
    }
}

/// The parameters of a signature keep their number: the three
/// implementations written for it have, as the argument of their trait and
/// as the type of their parameter, the tuple of the types of the parameters
/// that were read, one for each and in their order; and `call` binds the
/// tuple of their patterns. Each tuple holds as many commas of its own as
/// the signature has parameters.
pub proof fn arity_is_preserved(sig: Signature, name: Name)
    ensures
        types_of(sig.params).len() == sig.params.len(),
        patterns_of(sig.params).len() == sig.params.len(),
        tuple_of(types_of(sig.params)).inner().len() == token_count(
            types_of(sig.params),
            sig.params.len(),
        ) + sig.params.len(),
        tuple_of(patterns_of(sig.params)).inner().len() == token_count(
            patterns_of(sig.params),
            sig.params.len(),
        ) + sig.params.len(),
        forall|i: int|
            0 <= i < sig.params.len() ==> types_of(sig.params)[i] == sig.params[i].ty
                && patterns_of(sig.params)[i] == sig.params[i].pattern,
        forall|protocol: Seq<char>|
            impl_head(sig, name, protocol).contains(tuple_of(types_of(sig.params))),
        call_params(sig).inner() =~= seq![
            alone('&', Span::CallSite),
            word("self"@, Span::CallSite),
            alone(',', Span::CallSite),
            tuple_of(patterns_of(sig.params)),
            alone(':', Span::CallSite),
            tuple_of(types_of(sig.params)),
        ],
        call_once_params(sig).inner().last() == tuple_of(types_of(sig.params)),
        call_mut_params(sig).inner().last() == tuple_of(types_of(sig.params)),
{
    lemma_listed_len(types_of(sig.params), sig.params.len());
    lemma_listed_len(patterns_of(sig.params), sig.params.len());
    assert forall|protocol: Seq<char>|
        impl_head(sig, name, protocol).contains(tuple_of(types_of(sig.params))) by {
        let head = impl_head(sig, name, protocol);
        let at = crate::emit::optional_tokens(sig.generics).len() + 3;
        assert(head[at as int] == tuple_of(types_of(sig.params)));
    }
}

/// The return type defaults to the empty tuple. Where no `->` stands behind
/// the parameter list, nothing is read as the return type; where it stands
/// there, the tokens behind it are read as they are. A signature without a
/// return type is given the empty tuple, at the span of its parameter list;
/// one with a return type is given the tokens that were read. That type is
/// what the implementation of `FnOnce` declares as `Output`.
pub proof fn return_type_defaults(s: Seq<Tree>, pos: int, end: Span, sig: Signature)
    ensures
        !pair_at(s, pos, '-', '>') ==> return_at(s, pos, end) == Ok::<
            (Option<Seq<Tree>>, int),
            ExpandError,
        >((None, pos)),
        pair_at(s, pos, '-', '>') ==> match return_at(s, pos, end) {
            Ok((ret, next)) => ret == Some(s.subrange(pos + 2, next)),
            Err(e) => e.kind == ErrorKind::MalformedSignature,
        },
        sig.ret is None ==> return_type(sig) == seq![
            group(Delimiter::Parenthesis, Seq::empty(), sig.paren),
        ],
        sig.ret matches Some(ty) ==> return_type(sig) == ty,
        call_once_items(sig).subrange(0, 3 + return_type(sig).len() as int) == seq![
            word("type"@, Span::CallSite),
            word("Output"@, Span::CallSite),
            alone('=', Span::CallSite),
        ] + return_type(sig),
{
    assert(call_once_items(sig).subrange(0, 3 + return_type(sig).len() as int) =~= seq![
        word("type"@, Span::CallSite),
        word("Output"@, Span::CallSite),
        alone('=', Span::CallSite),
    ] + return_type(sig));
}

/// What `first_receiver` finds is the first signature with a `self`
/// parameter, and it finds one where there is any.
pub proof fn lemma_first_receiver(sigs: Seq<Signature>, n: nat)
    requires
        n <= sigs.len(),
    ensures
        match first_receiver(sigs, n) {
            Some(i) => 0 <= i < n && sigs[i].receiver is Some && forall|j: int|
                0 <= j < i ==> sigs[j].receiver is None,
            None => forall|j: int| 0 <= j < n ==> sigs[j].receiver is None,
        },
    decreases n,
{
    if n > 0 {
        lemma_first_receiver(sigs, (n - 1) as nat);
    }
}

/// A free function takes no `self`: signatures of which one has a `self`
/// parameter are refused, with the span of the parameter list of the first
/// such signature, and nothing is written for any of them; signatures
/// without one are never refused.
pub proof fn receiver_is_rejected(sigs: Seq<Signature>, name: Name)
    ensures
        (exists|i: int| 0 <= i < sigs.len() && sigs[i].receiver is Some) <==> free_decls(
            sigs,
            name,
        ) is Err,
        free_decls(sigs, name) matches Err(e) ==> e.kind == ErrorKind::ReceiverNotAllowed
            && exists|i: int|
            0 <= i < sigs.len() && sigs[i].receiver is Some && e.span == sigs[i].paren,
{
    lemma_first_receiver(sigs, sigs.len());
}

/// A declaration of a free function that is read and holds a signature with
/// a `self` parameter expands to the refusal of that parameter.
pub proof fn expansion_rejects_receiver(input: Seq<Tree>)
    requires
        free_form(input) matches Ok(form) && exists|i: int|
            0 <= i < form.signatures.len() && form.signatures[i].receiver is Some,
    ensures
        free_expansion(input) matches Err(e) && e.kind == ErrorKind::ReceiverNotAllowed,
{
    let form = free_form(input)->Ok_0;
    receiver_is_rejected(form.signatures, form.name);
}

/// The number that a sequence of decimal digits writes.
pub open spec fn numeral_value(digits: Seq<char>) -> nat
    decreases digits.len(),
{
    if digits.len() == 0 {
        0
    } else {
        let last = digits.last();
        let unit: nat = if last == '1' {
            1
        } else if last == '2' {
            2
        } else if last == '3' {
            3
        } else if last == '4' {
            4
        } else if last == '5' {
            5
        } else if last == '6' {
            6
        } else if last == '7' {
            7
        } else if last == '8' {
            8
        } else if last == '9' {
            9
        } else {
            0
        };
        numeral_value(digits.drop_last()) * 10 + unit
    }
}

/// The decimal numeral of a number writes that number.
pub proof fn lemma_decimal_value(n: nat)
    ensures
        numeral_value(decimal(n)) == n,
    decreases n,
{
    if n < 10 {
        assert(decimal(n).drop_last() =~= Seq::<char>::empty());
        assert(numeral_value(decimal(n).drop_last()) == 0);
    } else {
        lemma_decimal_value(n / 10);
        assert(decimal(n).drop_last() =~= decimal(n / 10));
        assert(decimal(n).last() == digit(n % 10));
    }
}

/// Different numbers have different decimal numerals.
pub proof fn lemma_decimal_injective(i: nat, j: nat)
    requires
        decimal(i) == decimal(j),
    ensures
        i == j,
{
    lemma_decimal_value(i);
    lemma_decimal_value(j);
}

/// No two traits of a declaration share a name: the names for two different
/// places differ, whatever the owner is called.
pub proof fn trait_names_differ(owner: Name, i: nat, j: nat)
    requires
        i != j,
    ensures
        trait_name(owner, i) != trait_name(owner, j),
{
    let front = owner.text + "Trait"@;
    if trait_name(owner, i) == trait_name(owner, j) {
        let a = front + decimal(i);
        let b = front + decimal(j);
        assert(a == b);
        assert(decimal(i) =~= a.subrange(front.len() as int, a.len() as int));
        assert(decimal(j) =~= b.subrange(front.len() as int, b.len() as int));
        lemma_decimal_injective(i, j);
    }
}

/// Every signature of a declaration of members gets a trait of its own: the
/// trait for a signature at the place `i` is declared and implemented under
/// the name for `i`, and the names for different places differ, however many
/// signatures there are.
pub proof fn interfaces_are_unique(vis: Seq<Tree>, owner: Name, name: Name)
    ensures
        forall|sig: Signature, i: nat| #[trigger]
            trait_decl(vis, owner, name, sig, i)[vis.len() as int + 1] == trait_name(owner, i),
        forall|sig: Signature, i: nat| #[trigger]
            trait_impl(owner, name, sig, i)[1] == trait_name(owner, i),
        forall|i: nat, j: nat|
            #![trigger trait_name(owner, i), trait_name(owner, j)]
            i != j ==> trait_name(owner, i) != trait_name(owner, j),
{
    assert forall|i: nat, j: nat| i != j implies #[trigger] trait_name(owner, i)
        != #[trigger] trait_name(owner, j) by {
        trait_names_differ(owner, i, j);
    }
}

} // verus!
