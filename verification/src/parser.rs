//! Reading signatures from token trees.
//!
//! Each part of a signature has a spec function that says what is read from
//! a position of a token sequence and where the reading ends, and an
//! executable function that computes exactly that. A reading that fails
//! names the token at which it stopped, and the span `end` where the tokens
//! ran out before.

use crate::error::{malformed_signature, ExpandError};
use crate::signature::{
    lemma_views_push, views, Annotation, Attribute, Constraint, Param, Parameter, ParsedFnDef,
    Receiver, Signature, ThisDef, WhereClause,
};
use crate::syntax::{grammar_end, measure, Grammar};
use crate::token::{
    copy_all, copy_range, group_at, has_pair, has_punct, has_word, mark_at, pair_at, punct_at,
    punct_mark, span_at, span_of, trees, word_at, Delimiter, Mark, Span, TokenTree, Tree,
};
use vstd::prelude::*;

verus! {

/// The span of the token at `pos` where `present` holds, and nothing otherwise.
pub open spec fn span_if(present: bool, s: Seq<Tree>, pos: int) -> Option<Span> {
    if present {
        Some(s[pos].span())
    } else {
        None
    }
}

/// How the punctuation character `ch` at `pos` was written, where it stands
/// there, and nothing otherwise.
pub open spec fn mark_if(s: Seq<Tree>, pos: int, ch: char) -> Option<Mark> {
    if punct_at(s, pos, ch) {
        Some(mark_at(s, pos))
    } else {
        None
    }
}

/// A colon is the second or third token, and `self` the first or second: the
/// look of a `self` parameter with a type.
pub open spec fn explicit_shape(p: Seq<Tree>) -> bool {
    (punct_at(p, 1, ':') || punct_at(p, 2, ':')) && (word_at(p, 0, "self"@) || word_at(
        p,
        1,
        "self"@,
    ))
}

/// `self` is among the first three tokens: the look of a `self` parameter
/// without a type.
pub open spec fn implicit_shape(p: Seq<Tree>) -> bool {
    word_at(p, 0, "self"@) || word_at(p, 1, "self"@) || word_at(p, 2, "self"@)
}

/// The `self` parameter at the front of the parameter tokens `p`, and the
/// position behind it. With the look of a typed one, the tokens must be
/// `mut`? `self` `:` Type `,`?; otherwise, with `self` among the first three
/// tokens, they must be `&`? `mut`? `self` `,`?. Nothing is found where the
/// tokens have neither look or do not go on as their look promises.
pub open spec fn receiver_of(p: Seq<Tree>) -> Option<(Receiver, int)> {
    if explicit_shape(p) {
        let m: int = if word_at(p, 0, "mut"@) {
            1
        } else {
            0
        };
        if word_at(p, m, "self"@) && punct_at(p, m + 1, ':') {
            match grammar_end(Grammar::Type, p, m + 2) {
                Some(e) => {
                    let comma = punct_at(p, e, ',');
                    Some(
                        (
                            Receiver::Explicit {
                                mutability: span_if(m == 1, p, 0),
                                this: p[m].span(),
                                colon: mark_at(p, m + 1),
                                ty: p.subrange(m + 2, e),
                                comma: mark_if(p, e, ','),
                            },
                            if comma {
                                e + 1
                            } else {
                                e
                            },
                        ),
                    )
                },
                None => None,
            }
        } else {
            None
        }
    } else if implicit_shape(p) {
        let r: int = if punct_at(p, 0, '&') {
            1
        } else {
            0
        };
        let m: int = if word_at(p, r, "mut"@) {
            r + 1
        } else {
            r
        };
        if word_at(p, m, "self"@) {
            let comma = punct_at(p, m + 1, ',');
            Some(
                (
                    Receiver::Implicit {
                        reference: mark_if(p, 0, '&'),
                        mutability: span_if(m == r + 1, p, r),
                        this: p[m].span(),
                        comma: mark_if(p, m + 1, ','),
                    },
                    if comma {
                        m + 2
                    } else {
                        m + 1
                    },
                ),
            )
        } else {
            None
        }
    } else {
        None
    }
}

impl ThisDef {
    /// Looks for a `self` parameter at the front of the tokens of a parameter
    /// list. Nothing found is no failure: the tokens are then ordinary
    /// parameters from the first on.
    pub fn parse(tokens: &Vec<TokenTree>) -> (found: Option<(ThisDef, usize)>)
        ensures
            match found {
                Some((this, next)) => receiver_of(trees(tokens@)) == Some((this@, next as int))
                    && next <= tokens.len(),
                None => receiver_of(trees(tokens@)) is None,
            },
    {
        let first = has_word(tokens, 0, "self");
        let second = has_word(tokens, 1, "self");
        if (has_punct(tokens, 1, ':') || has_punct(tokens, 2, ':')) && (first || second) {
            let m: usize = if has_word(tokens, 0, "mut") {
                1
            } else {
                0
            };
            if !has_word(tokens, m, "self") {
                return None;
            }
            let colon = match punct_mark(tokens, m + 1, ':') {
                Some(colon) => colon,
                None => {
                    return None;
                },
            };
            match measure(Grammar::Type, tokens, m + 2) {
                Some(e) => {
                    let mutability = if m == 1 {
                        Some(tokens[0].span())
                    } else {
                        None
                    };
                    let ty = copy_range(tokens, m + 2, e);
                    let comma = punct_mark(tokens, e, ',');
                    let next: usize = if comma.is_some() {
                        e + 1
                    } else {
                        e
                    };
                    Some(
                        (
                            ThisDef::Explicit {
                                mutability,
                                this: tokens[m].span(),
                                colon,
                                ty,
                                comma,
                            },
                            next,
                        ),
                    )
                },
                None => None,
            }
        } else if first || second || has_word(tokens, 2, "self") {
            let reference = punct_mark(tokens, 0, '&');
            let r: usize = if reference.is_some() {
                1
            } else {
                0
            };
            let m: usize = if has_word(tokens, r, "mut") {
                r + 1
            } else {
                r
            };
            if !has_word(tokens, m, "self") {
                return None;
            }
            let mutability = if m == r + 1 {
                Some(tokens[r].span())
            } else {
                None
            };
            let comma = punct_mark(tokens, m + 1, ',');
            let next: usize = if comma.is_some() {
                m + 2
            } else {
                m + 1
            };
            Some((ThisDef::Implicit { reference, mutability, this: tokens[m].span(), comma }, next))
        } else {
            None
        }
    }
}

/// The parameter read at `pos`: a pattern, a colon and a type, and the position
/// behind the type.
pub open spec fn parameter_at(p: Seq<Tree>, pos: int, end: Span) -> Result<
    (Parameter, int),
    ExpandError,
> {
    match grammar_end(Grammar::Pattern, p, pos) {
        None => Err(malformed_signature(span_at(p, pos, end))),
        Some(a) => if !punct_at(p, a, ':') {
            Err(malformed_signature(span_at(p, a, end)))
        } else {
            match grammar_end(Grammar::Type, p, a + 1) {
                None => Err(malformed_signature(span_at(p, a + 1, end))),
                Some(b) => Ok((Parameter { pattern: p.subrange(pos, a), ty: p.subrange(a + 1, b) }, b)),
            }
        },
    }
}

/// Reads one parameter at `start`: a pattern, a colon and a type.
pub fn parse_pattern_type_pair(tokens: &Vec<TokenTree>, start: usize, end: Span) -> (r: Result<
    (Param, usize),
    ExpandError,
>)
    ensures
        match r {
            Ok((param, next)) => parameter_at(trees(tokens@), start as int, end) == Ok::<
                (Parameter, int),
                ExpandError,
            >((param@, next as int)) && start < next <= tokens.len(),
            Err(e) => parameter_at(trees(tokens@), start as int, end) == Err::<
                (Parameter, int),
                ExpandError,
            >(e),
        },
{
    let a = match measure(Grammar::Pattern, tokens, start) {
        Some(a) => a,
        None => {
            return Err(ExpandError::signature(span_of(tokens, start, end)));
        },
    };
    if !has_punct(tokens, a, ':') {
        return Err(ExpandError::signature(span_of(tokens, a, end)));
    }
    let b = match measure(Grammar::Type, tokens, a + 1) {
        Some(b) => b,
        None => {
            return Err(ExpandError::signature(span_of(tokens, a + 1, end)));
        },
    };
    let pattern = copy_range(tokens, start, a);
    let ty = copy_range(tokens, a + 1, b);
    Ok((Param { pattern, ty }, b))
}

/// The parameters read from `pos` on, after those of `acc`: parameters with
/// a comma between each two, and at most one comma behind the last.
pub open spec fn params_from(p: Seq<Tree>, pos: int, end: Span, acc: Seq<Parameter>) -> Result<
    Seq<Parameter>,
    ExpandError,
>
    decreases p.len() - pos,
{
    if pos >= p.len() {
        Ok(acc)
    } else {
        match parameter_at(p, pos, end) {
            Err(e) => Err(e),
            Ok((param, next)) => if next >= p.len() {
                Ok(acc.push(param))
            } else if punct_at(p, next, ',') {
                params_from(p, next + 1, end, acc.push(param))
            } else {
                Err(malformed_signature(span_at(p, next, end)))
            },
        }
    }
}

/// Reads the parameters from `start` to the end of `tokens`.
pub fn parse_params(tokens: &Vec<TokenTree>, start: usize, end: Span) -> (r: Result<
    Vec<Param>,
    ExpandError,
>)
    ensures
        match r {
            Ok(params) => params_from(trees(tokens@), start as int, end, Seq::empty()) == Ok::<
                Seq<Parameter>,
                ExpandError,
            >(views(params@)),
            Err(e) => params_from(trees(tokens@), start as int, end, Seq::empty()) == Err::<
                Seq<Parameter>,
                ExpandError,
            >(e),
        },
{
    let ghost p = trees(tokens@);
    let mut params: Vec<Param> = Vec::new();
    let mut pos: usize = start;
    assert(views(params@) =~= Seq::<Parameter>::empty());
    while pos < tokens.len()
        invariant
            p == trees(tokens@),
            params_from(p, start as int, end, Seq::empty()) == params_from(
                p,
                pos as int,
                end,
                views(params@),
            ),
        decreases tokens.len() - pos,
    {
        match parse_pattern_type_pair(tokens, pos, end) {
            Err(e) => {
                return Err(e);
            },
            Ok((param, next)) => {
                proof {
                    lemma_views_push(params@, param);
                }
                params.push(param);
                if next >= tokens.len() {
                    return Ok(params);
                } else if has_punct(tokens, next, ',') {
                    pos = next + 1;
                } else {
                    return Err(ExpandError::signature(span_of(tokens, next, end)));
                }
            },
        }
    }
    Ok(params)
}

/// What stands between the parentheses of a signature: a `self` parameter
/// where one is found, and the parameters behind it.
pub open spec fn parameter_list(p: Seq<Tree>, paren: Span) -> Result<
    (Option<Receiver>, Seq<Parameter>),
    ExpandError,
> {
    let (receiver, start) = match receiver_of(p) {
        Some((this, next)) => (Some(this), next),
        None => (None, 0int),
    };
    match params_from(p, start, paren, Seq::empty()) {
        Ok(params) => Ok((receiver, params)),
        Err(e) => Err(e),
    }
}

/// The annotations read from `pos` on, after those of `acc`, and the position
/// behind the last: each is `#` and a group in square brackets.
pub open spec fn attrs_from(s: Seq<Tree>, pos: int, end: Span, acc: Seq<Attribute>) -> Result<
    (Seq<Attribute>, int),
    ExpandError,
>
    decreases s.len() - pos,
{
    if punct_at(s, pos, '#') {
        if group_at(s, pos + 1, Delimiter::Bracket) {
            attrs_from(
                s,
                pos + 2,
                end,
                acc.push(Attribute { meta: s[pos + 1].inner(), bracket: s[pos + 1].span() }),
            )
        } else {
            Err(malformed_signature(span_at(s, pos + 1, end)))
        }
    } else {
        Ok((acc, pos))
    }
}

/// Reads the annotations that stand at `start`.
pub fn parse_annotations(tokens: &Vec<TokenTree>, start: usize, end: Span) -> (r: Result<
    (Vec<Annotation>, usize),
    ExpandError,
>)
    ensures
        match r {
            Ok((attrs, next)) => attrs_from(trees(tokens@), start as int, end, Seq::empty())
                == Ok::<(Seq<Attribute>, int), ExpandError>((views(attrs@), next as int))
                && start <= next,
            Err(e) => attrs_from(trees(tokens@), start as int, end, Seq::empty()) == Err::<
                (Seq<Attribute>, int),
                ExpandError,
            >(e),
        },
{
    let ghost s = trees(tokens@);
    let mut attrs: Vec<Annotation> = Vec::new();
    let mut pos: usize = start;
    assert(views(attrs@) =~= Seq::<Attribute>::empty());
    while has_punct(tokens, pos, '#')
        invariant
            start <= pos,
            s == trees(tokens@),
            attrs_from(s, start as int, end, Seq::empty()) == attrs_from(
                s,
                pos as int,
                end,
                views(attrs@),
            ),
        decreases tokens.len() - pos,
    {
        if pos + 1 >= tokens.len() {
            return Err(ExpandError::signature(end));
        }
        match tokens[pos + 1].as_group(Delimiter::Bracket) {
            None => {
                return Err(ExpandError::signature(tokens[pos + 1].span()));
            },
            Some(stream) => {
                let note = Annotation { meta: copy_all(stream), bracket: tokens[pos + 1].span() };
                proof {
                    lemma_views_push(attrs@, note);
                }
                attrs.push(note);
                pos = pos + 2;
            },
        }
    }
    Ok((attrs, pos))
}

/// The generic parameter list at `pos`, where `<` stands there, and the
/// position behind it.
pub open spec fn generics_at(s: Seq<Tree>, pos: int, end: Span) -> Result<
    (Option<Seq<Tree>>, int),
    ExpandError,
> {
    if punct_at(s, pos, '<') {
        match grammar_end(Grammar::Generics, s, pos) {
            Some(e) => Ok((Some(s.subrange(pos, e)), e)),
            None => Err(malformed_signature(span_at(s, pos, end))),
        }
    } else {
        Ok((None, pos))
    }
}

/// The return type at `pos`, where `->` stands there, and the position
/// behind it.
pub open spec fn return_at(s: Seq<Tree>, pos: int, end: Span) -> Result<
    (Option<Seq<Tree>>, int),
    ExpandError,
> {
    if pair_at(s, pos, '-', '>') {
        match grammar_end(Grammar::Type, s, pos + 2) {
            Some(e) => Ok((Some(s.subrange(pos + 2, e)), e)),
            None => Err(malformed_signature(span_at(s, pos + 2, end))),
        }
    } else {
        Ok((None, pos))
    }
}

/// The `where` clause at `pos`, where the word `where` stands there, and the
/// position behind it. Predicates in square brackets are taken as they are;
/// predicates without brackets reach as far as the host grammar reads them.
pub open spec fn constraint_at(s: Seq<Tree>, pos: int, end: Span) -> Result<
    (Option<Constraint>, int),
    ExpandError,
> {
    if word_at(s, pos, "where"@) {
        if group_at(s, pos + 1, Delimiter::Bracket) {
            Ok((Some(Constraint { keyword: s[pos].span(), predicates: s[pos + 1].inner() }), pos + 2))
        } else {
            match grammar_end(Grammar::Constraint, s, pos) {
                Some(e) => if e > pos {
                    Ok(
                        (
                            Some(
                                Constraint {
                                    keyword: s[pos].span(),
                                    predicates: s.subrange(pos + 1, e),
                                },
                            ),
                            e,
                        ),
                    )
                } else {
                    Err(malformed_signature(span_at(s, pos + 1, end)))
                },
                None => Err(malformed_signature(span_at(s, pos + 1, end))),
            }
        }
    } else {
        Ok((None, pos))
    }
}

/// Whether the executable answer `r` states the optional tokens and the
/// position of `spec`, or its failure.
pub open spec fn reads_optional(
    r: Result<(Option<Vec<TokenTree>>, usize), ExpandError>,
    spec: Result<(Option<Seq<Tree>>, int), ExpandError>,
) -> bool {
    match r {
        Ok((tokens, next)) => spec == Ok::<(Option<Seq<Tree>>, int), ExpandError>(
            (crate::signature::optional_trees(tokens), next as int),
        ),
        Err(e) => spec == Err::<(Option<Seq<Tree>>, int), ExpandError>(e),
    }
}

/// Reads the generic parameter list at `start`, where there is one.
pub fn parse_generics(tokens: &Vec<TokenTree>, start: usize, end: Span) -> (r: Result<
    (Option<Vec<TokenTree>>, usize),
    ExpandError,
>)
    ensures
        reads_optional(r, generics_at(trees(tokens@), start as int, end)),
        r matches Ok((_, next)) ==> start <= next,
{
    if has_punct(tokens, start, '<') {
        match measure(Grammar::Generics, tokens, start) {
            Some(e) => Ok((Some(copy_range(tokens, start, e)), e)),
            None => Err(ExpandError::signature(span_of(tokens, start, end))),
        }
    } else {
        Ok((None, start))
    }
}

/// Reads the return type at `start`, where `->` stands there.
pub fn parse_return(tokens: &Vec<TokenTree>, start: usize, end: Span) -> (r: Result<
    (Option<Vec<TokenTree>>, usize),
    ExpandError,
>)
    ensures
        reads_optional(r, return_at(trees(tokens@), start as int, end)),
        r matches Ok((_, next)) ==> start <= next,
{
    if has_pair(tokens, start, '-', '>') {
        match measure(Grammar::Type, tokens, start + 2) {
            Some(e) => Ok((Some(copy_range(tokens, start + 2, e)), e)),
            None => Err(ExpandError::signature(span_of(tokens, start + 2, end))),
        }
    } else {
        Ok((None, start))
    }
}

/// Reads the `where` clause at `start`, where there is one.
pub fn parse_constraint(tokens: &Vec<TokenTree>, start: usize, end: Span) -> (r: Result<
    (Option<WhereClause>, usize),
    ExpandError,
>)
    ensures
        match r {
            Ok((clause, next)) => constraint_at(trees(tokens@), start as int, end) == Ok::<
                (Option<Constraint>, int),
                ExpandError,
            >((crate::signature::optional_constraint(clause), next as int)) && start <= next,
            Err(e) => constraint_at(trees(tokens@), start as int, end) == Err::<
                (Option<Constraint>, int),
                ExpandError,
            >(e),
        },
{
    if !has_word(tokens, start, "where") {
        return Ok((None, start));
    }
    let keyword = tokens[start].span();
    if start + 1 < tokens.len() {
        if let Some(stream) = tokens[start + 1].as_group(Delimiter::Bracket) {
            return Ok((Some(WhereClause { keyword, predicates: copy_all(stream) }), start + 2));
        }
    }
    match measure(Grammar::Constraint, tokens, start) {
        Some(e) => if e > start {
            Ok((Some(WhereClause { keyword, predicates: copy_range(tokens, start + 1, e) }), e))
        } else {
            Err(ExpandError::signature(span_of(tokens, start + 1, end)))
        },
        None => Err(ExpandError::signature(span_of(tokens, start + 1, end))),
    }
}

/// The signature read at `pos`, and the position behind its body: the
/// annotations, `fn`, the generic parameter list where `<` follows, the
/// parameter list in parentheses, the return type where `->` follows, the
/// `where` clause where `where` follows, and the body in braces.
pub open spec fn signature_at(s: Seq<Tree>, pos: int, end: Span) -> Result<
    (Signature, int),
    ExpandError,
> {
    match attrs_from(s, pos, end, Seq::empty()) {
        Err(e) => Err(e),
        Ok((attrs, at_fn)) => if !word_at(s, at_fn, "fn"@) {
            Err(malformed_signature(span_at(s, at_fn, end)))
        } else {
            match generics_at(s, at_fn + 1, end) {
                Err(e) => Err(e),
                Ok((generics, at_paren)) => if !group_at(s, at_paren, Delimiter::Parenthesis) {
                    Err(malformed_signature(span_at(s, at_paren, end)))
                } else {
                    match parameter_list(s[at_paren].inner(), s[at_paren].span()) {
                        Err(e) => Err(e),
                        Ok((receiver, params)) => match return_at(s, at_paren + 1, end) {
                            Err(e) => Err(e),
                            Ok((ret, at_where)) => match constraint_at(s, at_where, end) {
                                Err(e) => Err(e),
                                Ok((constraint, at_body)) => if !group_at(
                                    s,
                                    at_body,
                                    Delimiter::Brace,
                                ) {
                                    Err(malformed_signature(span_at(s, at_body, end)))
                                } else {
                                    Ok(
                                        (
                                            Signature {
                                                attrs,
                                                generics,
                                                paren: s[at_paren].span(),
                                                receiver,
                                                params,
                                                ret,
                                                constraint,
                                                body: s[at_body].inner(),
                                                brace: s[at_body].span(),
                                            },
                                            at_body + 1,
                                        ),
                                    )
                                },
                            },
                        },
                    }
                },
            }
        },
    }
}

/// Whether `r` is what reading a signature at `pos` of `tokens` gives: the
/// signature that stands there and the position behind it, or the failure.
pub open spec fn is_reading(
    r: Result<(ParsedFnDef, usize), ExpandError>,
    tokens: Seq<TokenTree>,
    pos: int,
    end: Span,
) -> bool {
    match r {
        Ok((def, next)) => signature_at(trees(tokens), pos, end) == Ok::<
            (Signature, int),
            ExpandError,
        >((def@, next as int)),
        Err(e) => signature_at(trees(tokens), pos, end) == Err::<(Signature, int), ExpandError>(e),
    }
}

impl ParsedFnDef {
    /// Reads one signature at `start`. On success the second part of the
    /// result is the position behind the body.
    pub fn parse(tokens: &Vec<TokenTree>, start: usize, end: Span) -> (r: Result<
        (ParsedFnDef, usize),
        ExpandError,
    >)
        ensures
            is_reading(r, tokens@, start as int, end),
            r matches Ok((_, next)) ==> start < next <= tokens.len(),
    {
        let (meta, at_fn) = match parse_annotations(tokens, start, end) {
            Ok(found) => found,
            Err(e) => {
                return Err(e);
            },
        };
        if !has_word(tokens, at_fn, "fn") {
            return Err(ExpandError::signature(span_of(tokens, at_fn, end)));
        }
        let (gen, at_paren) = match parse_generics(tokens, at_fn + 1, end) {
            Ok(found) => found,
            Err(e) => {
                return Err(e);
            },
        };
        if at_paren >= tokens.len() {
            return Err(ExpandError::signature(end));
        }
        let inner = match tokens[at_paren].as_group(Delimiter::Parenthesis) {
            Some(inner) => inner,
            None => {
                return Err(ExpandError::signature(tokens[at_paren].span()));
            },
        };
        let paren = tokens[at_paren].span();
        let (this, first) = match ThisDef::parse(inner) {
            Some((this, next)) => (Some(this), next),
            None => (None, 0),
        };
        let params = match parse_params(inner, first, paren) {
            Ok(params) => params,
            Err(e) => {
                return Err(e);
            },
        };
        let (ret, at_where) = match parse_return(tokens, at_paren + 1, end) {
            Ok(found) => found,
            Err(e) => {
                return Err(e);
            },
        };
        let (w_clause, at_body) = match parse_constraint(tokens, at_where, end) {
            Ok(found) => found,
            Err(e) => {
                return Err(e);
            },
        };
        if at_body >= tokens.len() {
            return Err(ExpandError::signature(end));
        }
        let code = match tokens[at_body].as_group(Delimiter::Brace) {
            Some(stream) => copy_all(stream),
            None => {
                return Err(ExpandError::signature(tokens[at_body].span()));
            },
        };
        let brace = tokens[at_body].span();
        Ok((ParsedFnDef { meta, gen, paren, this, params, ret, w_clause, code, brace }, at_body + 1))
    }
}

/// A signature that is read ends behind the place where it began, within the
/// tokens.
pub proof fn lemma_signature_advances(s: Seq<Tree>, pos: int, end: Span)
    requires
        0 <= pos,
    ensures
        signature_at(s, pos, end) matches Ok((_, next)) ==> pos < next <= s.len(),
{
    lemma_attrs_advance(s, pos, end, Seq::empty());
}

/// Annotations that are read end at or behind the place where they began.
pub proof fn lemma_attrs_advance(s: Seq<Tree>, pos: int, end: Span, acc: Seq<Attribute>)
    requires
        0 <= pos,
    ensures
        attrs_from(s, pos, end, acc) matches Ok((_, next)) ==> pos <= next,
    decreases s.len() - pos,
{
    if punct_at(s, pos, '#') && group_at(s, pos + 1, Delimiter::Bracket) {
        lemma_attrs_advance(
            s,
            pos + 2,
            end,
            acc.push(Attribute { meta: s[pos + 1].inner(), bracket: s[pos + 1].span() }),
        );
    }
}

/// The signatures read from `pos` on, after those of `acc`: signatures with
/// a comma between each two, and at most one comma behind the last.
pub open spec fn signatures_from(s: Seq<Tree>, pos: int, end: Span, acc: Seq<Signature>) -> Result<
    Seq<Signature>,
    ExpandError,
>
    decreases s.len() - pos,
    via signatures_from_decreases
{
    if pos < 0 || pos >= s.len() {
        Ok(acc)
    } else {
        match signature_at(s, pos, end) {
            Err(e) => Err(e),
            Ok((sig, next)) => if next >= s.len() {
                Ok(acc.push(sig))
            } else if punct_at(s, next, ',') {
                signatures_from(s, next + 1, end, acc.push(sig))
            } else {
                Err(malformed_signature(span_at(s, next, end)))
            },
        }
    }
}

#[via_fn]
proof fn signatures_from_decreases(s: Seq<Tree>, pos: int, end: Span, acc: Seq<Signature>) {
    if 0 <= pos {
        lemma_signature_advances(s, pos, end);
    }
}

/// The signatures of a declaration, read from `pos` to the end of the
/// tokens: at least one.
pub open spec fn signature_list(s: Seq<Tree>, pos: int, end: Span) -> Result<
    Seq<Signature>,
    ExpandError,
> {
    if pos >= s.len() {
        Err(malformed_signature(end))
    } else {
        signatures_from(s, pos, end, Seq::empty())
    }
}

/// Reads the signatures of a declaration from `start` to the end of `tokens`.
pub fn parse_signatures(tokens: &Vec<TokenTree>, start: usize, end: Span) -> (r: Result<
    Vec<ParsedFnDef>,
    ExpandError,
>)
    ensures
        match r {
            Ok(fns) => signature_list(trees(tokens@), start as int, end) == Ok::<
                Seq<Signature>,
                ExpandError,
            >(views(fns@)),
            Err(e) => signature_list(trees(tokens@), start as int, end) == Err::<
                Seq<Signature>,
                ExpandError,
            >(e),
        },
{
    if start >= tokens.len() {
        return Err(ExpandError::signature(end));
    }
    let ghost s = trees(tokens@);
    let mut fns: Vec<ParsedFnDef> = Vec::new();
    let mut pos: usize = start;
    assert(views(fns@) =~= Seq::<Signature>::empty());
    while pos < tokens.len()
        invariant
            start < tokens.len(),
            pos <= tokens.len(),
            s == trees(tokens@),
            signatures_from(s, start as int, end, Seq::empty()) == signatures_from(
                s,
                pos as int,
                end,
                views(fns@),
            ),
        decreases tokens.len() - pos,
    {
        match ParsedFnDef::parse(tokens, pos, end) {
            Err(e) => {
                return Err(e);
            },
            Ok((def, next)) => {
                proof {
                    lemma_views_push(fns@, def);
                }
                fns.push(def);
                if next >= tokens.len() {
                    return Ok(fns);
                } else if has_punct(tokens, next, ',') {
                    pos = next + 1;
                } else {
                    return Err(ExpandError::signature(span_of(tokens, next, end)));
                }
            },
        }
    }
    Ok(fns)
}

} // verus!
