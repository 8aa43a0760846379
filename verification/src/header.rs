//! Declarations: the header `name as` or `Owner :: name as`, and the
//! signatures behind it.

use crate::error::{malformed_header, ExpandError};
use crate::parser::{parse_signatures, signature_list};
use crate::signature::{views, ParsedFnDef, Signature};
use crate::syntax::{grammar_end, ident_accepted, measure, syn_ident_accepted, Grammar};
use crate::token::{
    copy_range, has_pair, has_word, pair_at, span_at, span_of, trees, word_at, Span, TokenTree,
    Tree,
};
use vstd::prelude::*;

verus! {

/// Model of an identifier: its text and its span.
pub struct Name {
    pub text: Seq<char>,
    pub span: Span,
}

/// An identifier that is no reserved word: its text and its span.
#[derive(Debug, PartialEq, Eq)]
pub struct Ident {
    pub text: String,
    pub span: Span,
}

impl View for Ident {
    type V = Name;

    open spec fn view(&self) -> Name {
        Name { text: self.text@, span: self.span }
    }
}

impl Ident {
    /// A copy of the identifier.
    pub fn duplicate(&self) -> (copy: Ident)
        ensures
            copy@ == self@,
    {
        Ident { text: self.text.clone(), span: self.span }
    }
}

/// The model of an identifier that may be absent.
pub open spec fn optional_name(ident: Option<Ident>) -> Option<Name> {
    match ident {
        Some(i) => Some(i@),
        None => None,
    }
}

/// The identifier that `t` is, given whether the host grammar accepts its
/// text as one: a word that is accepted, and nothing else.
pub open spec fn name_where(t: Tree, accepted: bool) -> Option<Name> {
    match t {
        Tree::Ident { text, span } => if accepted {
            Some(Name { text, span })
        } else {
            None
        },
        _ => None,
    }
}

/// The identifier at `pos`: a word that the host grammar accepts as an
/// identifier.
pub open spec fn name_at(s: Seq<Tree>, pos: int) -> Option<Name> {
    if 0 <= pos < s.len() {
        match s[pos] {
            Tree::Ident { text, .. } => name_where(s[pos], syn_ident_accepted(text)),
            _ => None,
        }
    } else {
        None
    }
}

/// The identifier that `token` is, given whether the host grammar accepts its
/// text as one.
pub fn accepted_name(token: &TokenTree, accepted: bool) -> (name: Option<Ident>)
    ensures
        optional_name(name) == name_where(token@, accepted),
{
    match token {
        TokenTree::Ident { text, span } => if accepted {
            Some(Ident { text: text.clone(), span: *span })
        } else {
            None
        },
        _ => None,
    }
}

/// The identifier at `pos`, where there is one.
pub fn parse_name(tokens: &Vec<TokenTree>, pos: usize) -> (name: Option<Ident>)
    ensures
        optional_name(name) == name_at(trees(tokens@), pos as int),
{
    if pos >= tokens.len() {
        return None;
    }
    match &tokens[pos] {
        TokenTree::Ident { text, .. } => {
            let accepted = ident_accepted(text.as_str());
            accepted_name(&tokens[pos], accepted)
        },
        _ => None,
    }
}

/// Model of a header. See [`Header`].
pub struct Heading {
    pub vis: Seq<Tree>,
    pub owner: Option<Name>,
    pub name: Name,
}

/// What stands before the signatures: the visibility, the declared name and,
/// in a declaration of members, the type that owns them.
#[derive(Debug, PartialEq, Eq)]
pub struct Header {
    /// The tokens of the visibility; none where nothing is written.
    pub vis: Vec<TokenTree>,
    /// The owner, where the header is `Owner :: name as`.
    pub owner: Option<Ident>,
    /// The declared name.
    pub name: Ident,
}

impl View for Header {
    type V = Heading;

    open spec fn view(&self) -> Heading {
        Heading { vis: trees(self.vis@), owner: optional_name(self.owner), name: self.name@ }
    }
}

/// The header at the front of `s`, and the position behind its `as`. After
/// the visibility stands an identifier. Where `::` follows it at once, the
/// identifier is the owner and the header goes on with the name and `as`;
/// otherwise the identifier is the name and `as` follows.
pub open spec fn heading_of(s: Seq<Tree>, end: Span) -> Result<(Heading, int), ExpandError> {
    match grammar_end(Grammar::Visibility, s, 0) {
        None => Err(malformed_header(span_at(s, 0, end))),
        Some(v) => match name_at(s, v) {
            None => Err(malformed_header(span_at(s, v, end))),
            Some(first) => if pair_at(s, v + 1, ':', ':') {
                match name_at(s, v + 3) {
                    None => Err(malformed_header(span_at(s, v + 3, end))),
                    Some(second) => if word_at(s, v + 4, "as"@) {
                        Ok(
                            (
                                Heading { vis: s.subrange(0, v), owner: Some(first), name: second },
                                v + 5,
                            ),
                        )
                    } else {
                        Err(malformed_header(span_at(s, v + 4, end)))
                    },
                }
            } else if word_at(s, v + 1, "as"@) {
                Ok((Heading { vis: s.subrange(0, v), owner: None, name: first }, v + 2))
            } else {
                Err(malformed_header(span_at(s, v + 1, end)))
            },
        },
    }
}

impl Header {
    /// Reads the header at the front of `tokens`. On success the second part
    /// of the result is the position behind `as`.
    pub fn parse(tokens: &Vec<TokenTree>, end: Span) -> (r: Result<(Header, usize), ExpandError>)
        ensures
            match r {
                Ok((header, next)) => heading_of(trees(tokens@), end) == Ok::<
                    (Heading, int),
                    ExpandError,
                >((header@, next as int)) && header.vis@.len() < tokens.len(),
                Err(e) => heading_of(trees(tokens@), end) == Err::<(Heading, int), ExpandError>(e),
            },
    {
        let v = match measure(Grammar::Visibility, tokens, 0) {
            Some(v) => v,
            None => {
                return Err(ExpandError::header(span_of(tokens, 0, end)));
            },
        };
        let first = match parse_name(tokens, v) {
            Some(first) => first,
            None => {
                return Err(ExpandError::header(span_of(tokens, v, end)));
            },
        };
        let vis = copy_range(tokens, 0, v);
        assert(vis@.len() == trees(vis@).len());
        if has_pair(tokens, v + 1, ':', ':') {
            let second = match parse_name(tokens, v + 3) {
                Some(second) => second,
                None => {
                    return Err(ExpandError::header(span_of(tokens, v + 3, end)));
                },
            };
            if has_word(tokens, v + 4, "as") {
                Ok((Header { vis, owner: Some(first), name: second }, v + 5))
            } else {
                Err(ExpandError::header(span_of(tokens, v + 4, end)))
            }
        } else if has_word(tokens, v + 1, "as") {
            Ok((Header { vis, owner: None, name: first }, v + 2))
        } else {
            Err(ExpandError::header(span_of(tokens, v + 1, end)))
        }
    }
}

/// Model of a declaration of a free function. See [`OverloadableGlobal`].
pub struct FreeForm {
    pub vis: Seq<Tree>,
    pub name: Name,
    pub signatures: Seq<Signature>,
}

/// A declaration of a free function: `name as` and its signatures.
#[derive(Debug, PartialEq, Eq)]
pub struct OverloadableGlobal {
    pub vis: Vec<TokenTree>,
    pub name: Ident,
    pub fns: Vec<ParsedFnDef>,
}

impl View for OverloadableGlobal {
    type V = FreeForm;

    open spec fn view(&self) -> FreeForm {
        FreeForm { vis: trees(self.vis@), name: self.name@, signatures: views(self.fns@) }
    }
}

/// Model of a declaration of members. See [`OverloadableAssociated`].
pub struct MemberForm {
    pub vis: Seq<Tree>,
    pub owner: Name,
    pub name: Name,
    pub signatures: Seq<Signature>,
}

/// A declaration of members: `Owner :: name as` and its signatures.
#[derive(Debug, PartialEq, Eq)]
pub struct OverloadableAssociated {
    pub vis: Vec<TokenTree>,
    pub struct_name: Ident,
    pub name: Ident,
    pub fns: Vec<ParsedFnDef>,
}

impl View for OverloadableAssociated {
    type V = MemberForm;

    open spec fn view(&self) -> MemberForm {
        MemberForm {
            vis: trees(self.vis@),
            owner: self.struct_name@,
            name: self.name@,
            signatures: views(self.fns@),
        }
    }
}

/// The declaration of a free function that the tokens `s` are. A header with
/// an owner fails at the token behind the first identifier, where `as` had to
/// stand.
pub open spec fn free_form(s: Seq<Tree>) -> Result<FreeForm, ExpandError> {
    match heading_of(s, Span::CallSite) {
        Err(e) => Err(e),
        Ok((heading, at)) => if heading.owner is Some {
            Err(malformed_header(span_at(s, heading.vis.len() as int + 1, Span::CallSite)))
        } else {
            match signature_list(s, at, Span::CallSite) {
                Err(e) => Err(e),
                Ok(signatures) => Ok(FreeForm { vis: heading.vis, name: heading.name, signatures }),
            }
        },
    }
}

/// The declaration of members that the tokens `s` are. A header without an
/// owner fails at the token behind the first identifier, where `::` had to
/// stand.
pub open spec fn member_form(s: Seq<Tree>) -> Result<MemberForm, ExpandError> {
    match heading_of(s, Span::CallSite) {
        Err(e) => Err(e),
        Ok((heading, at)) => match heading.owner {
            None => Err(malformed_header(span_at(s, heading.vis.len() as int + 1, Span::CallSite))),
            Some(owner) => match signature_list(s, at, Span::CallSite) {
                Err(e) => Err(e),
                Ok(signatures) => Ok(
                    MemberForm { vis: heading.vis, owner, name: heading.name, signatures },
                ),
            },
        },
    }
}

impl OverloadableGlobal {
    /// Reads the declaration of a free function from all of `tokens`.
    pub fn parse(tokens: &Vec<TokenTree>) -> (r: Result<OverloadableGlobal, ExpandError>)
        ensures
            match r {
                Ok(form) => free_form(trees(tokens@)) == Ok::<FreeForm, ExpandError>(form@),
                Err(e) => free_form(trees(tokens@)) == Err::<FreeForm, ExpandError>(e),
            },
    {
        let (header, at) = match Header::parse(tokens, Span::CallSite) {
            Ok(found) => found,
            Err(e) => {
                return Err(e);
            },
        };
        if header.owner.is_some() {
            return Err(ExpandError::header(span_of(tokens, header.vis.len() + 1, Span::CallSite)));
        }
        match parse_signatures(tokens, at, Span::CallSite) {
            Ok(fns) => Ok(OverloadableGlobal { vis: header.vis, name: header.name, fns }),
            Err(e) => Err(e),
        }
    }
}

impl OverloadableAssociated {
    /// Reads the declaration of members from all of `tokens`.
    pub fn parse(tokens: &Vec<TokenTree>) -> (r: Result<OverloadableAssociated, ExpandError>)
        ensures
            match r {
                Ok(form) => member_form(trees(tokens@)) == Ok::<MemberForm, ExpandError>(form@),
                Err(e) => member_form(trees(tokens@)) == Err::<MemberForm, ExpandError>(e),
            },
    {
        let (header, at) = match Header::parse(tokens, Span::CallSite) {
            Ok(found) => found,
            Err(e) => {
                return Err(e);
            },
        };
        let struct_name = match header.owner {
            Some(owner) => owner,
            None => {
                return Err(
                    ExpandError::header(span_of(tokens, header.vis.len() + 1, Span::CallSite)),
                );
            },
        };
        match parse_signatures(tokens, at, Span::CallSite) {
            Ok(fns) => Ok(
                OverloadableAssociated { vis: header.vis, struct_name, name: header.name, fns },
            ),
            Err(e) => Err(e),
        }
    }
}

} // verus!
