//! The parts of the host language's grammar that a declaration embeds:
//! visibilities, identifiers, generic parameter lists, patterns, types and
//! `where` clauses without brackets. The `syn` crate recognises them; this
//! module asks it how far each one reaches in a sequence of token trees.
//!
//! The tokens are handed over as text (see [`crate::text`]). `proc_macro2`
//! lexes the text, always with the lexer of its own, `syn` reads one part
//! from the front of what was lexed, and two numbers come back: how many
//! token trees were lexed, and how many of them `syn` left unread. What
//! `syn` accepts is not stated here: each answer has a name, and the
//! contracts of this crate speak of the names.
//!
//! `syn` panics on a literal that it does not know, and the lexer knows
//! literals that `syn` does not. So no literal of a declaration is handed
//! over: the text holds stand-ins, and the functions that hand it over ask
//! that it was written by this crate.

use crate::text::{readable, stream_reading, write_reading};
use crate::token::{trees, TokenTree, Tree};
use std::str::FromStr;
use vstd::prelude::*;

verus! {

/// Whether `text` lexes as one word of the host language, reserved or not.
pub uninterp spec fn syn_word(text: Seq<char>) -> bool;

/// Whether `syn` reads `text` as one identifier that is no reserved word.
pub uninterp spec fn syn_ident_accepted(text: Seq<char>) -> bool;

/// The token trees that `text` lexes into and those that are left of them
/// once `syn` has read a visibility from the front, both by their number.
pub uninterp spec fn syn_visibility_read(text: Seq<char>) -> Option<(usize, usize)>;

/// The token trees that `text` lexes into and those that are left of them
/// once `syn` has read a generic parameter list from the front, both by their number.
pub uninterp spec fn syn_generics_read(text: Seq<char>) -> Option<(usize, usize)>;

/// The token trees that `text` lexes into and those that are left of them
/// once `syn` has read a pattern from the front, both by their number.
pub uninterp spec fn syn_pattern_read(text: Seq<char>) -> Option<(usize, usize)>;

/// The token trees that `text` lexes into and those that are left of them
/// once `syn` has read a type from the front, both by their number.
pub uninterp spec fn syn_type_read(text: Seq<char>) -> Option<(usize, usize)>;

/// The token trees that `text` lexes into and those that are left of them
/// once `syn` has read a `where` clause from the front, both by their number.
pub uninterp spec fn syn_where_read(text: Seq<char>) -> Option<(usize, usize)>;

/// Whether `text` is what this crate writes out for token trees that can
/// be written out. Such a text holds the stand-ins `0`, `""` and `'0'`, what
/// the lexer takes for one word each, punctuation, brackets and spaces.
pub open spec fn is_written_out(text: Seq<char>) -> bool {
    exists|s: Seq<Tree>| readable(s) && text == #[trigger] stream_reading(s)
}

/// `syn::parse::Parser::parse_str` runs `syn::ext::IdentExt::parse_any` on
/// `text`: `proc_macro2::TokenStream::from_str` lexes it, and the parser
/// takes one identifier, reserved or not. The result says whether that
/// succeeded, which it does not where `text` holds more or less than one
/// identifier. `proc_macro2::fallback::force` makes the lexer that of
/// `proc_macro2` itself, whatever process this is; `unforce` gives the choice
/// back. Nothing is claimed of the result but that it depends on `text`
/// alone.
#[verifier::external_body]
pub(crate) fn word_like(text: &str) -> (word: bool)
    ensures
        word == syn_word(text@),
{
    proc_macro2::fallback::force();
    let parser = <syn::Ident as syn::ext::IdentExt>::parse_any;
    let word = syn::parse::Parser::parse_str(parser, text).is_ok();
    proc_macro2::fallback::unforce();
    word
}

/// `syn::parse_str::<syn::Ident>` lexes `text` and reads all of it as one
/// identifier. The result says whether that succeeded; `syn` refuses reserved
/// words and text that is more or less than one identifier.
/// `proc_macro2::fallback::force` makes the lexer that of `proc_macro2`
/// itself, whatever process this is; `unforce` gives the choice back. Nothing
/// is claimed of the result but that it depends on `text` alone.
#[verifier::external_body]
pub(crate) fn ident_accepted(text: &str) -> (accepted: bool)
    ensures
        accepted == syn_ident_accepted(text@),
{
    proc_macro2::fallback::force();
    let accepted = syn::parse_str::<syn::Ident>(text).is_ok();
    proc_macro2::fallback::unforce();
    accepted
}

/// `proc_macro2::TokenStream::from_str` lexes `text`, and
/// `syn::parse::Parser::parse2` runs `<syn::Visibility as syn::parse::Parse>::parse`
/// on the front of the token trees. The result is the number of token trees
/// lexed and the number that the parser left unread, and `None` where `text`
/// does not lex or the parser fails. `proc_macro2::fallback::force` makes the
/// lexer that of `proc_macro2` itself, whatever process this is; `unforce`
/// gives the choice back. Nothing is claimed of the result but that it
/// depends on `text` alone. The parser panics on a literal that `syn` does
/// not know. The text that is asked for holds no literal of a declaration:
/// what lexes into a literal there is a stand-in, `0`, `""` or `'0'`, or a
/// quote on either side of one space or punctuation character, or the text
/// of a comment; and `syn` knows all of these.
#[verifier::external_body]
pub(crate) fn visibility_read(text: &str) -> (read: Option<(usize, usize)>)
    requires
        is_written_out(text@),
    ensures
        read == syn_visibility_read(text@),
{
    proc_macro2::fallback::force();
    let front = |input: syn::parse::ParseStream| {
        input.parse::<syn::Visibility>()?;
        input.parse::<proc_macro2::TokenStream>()
    };
    let read = match proc_macro2::TokenStream::from_str(text) {
        Ok(stream) => match (stream.clone().into_iter().count(), syn::parse::Parser::parse2(front, stream)) {
            (lexed, Ok(rest)) => Some((lexed, rest.into_iter().count())),
            (_, Err(_)) => None,
        },
        Err(_) => None,
    };
    proc_macro2::fallback::unforce();
    read
}

/// `proc_macro2::TokenStream::from_str` lexes `text`, and
/// `syn::parse::Parser::parse2` runs `<syn::Generics as syn::parse::Parse>::parse`
/// on the front of the token trees. The result is the number of token trees
/// lexed and the number that the parser left unread, and `None` where `text`
/// does not lex or the parser fails. `proc_macro2::fallback::force` makes the
/// lexer that of `proc_macro2` itself, whatever process this is; `unforce`
/// gives the choice back. Nothing is claimed of the result but that it
/// depends on `text` alone. The parser panics on a literal that `syn` does
/// not know. The text that is asked for holds no literal of a declaration:
/// what lexes into a literal there is a stand-in, `0`, `""` or `'0'`, or a
/// quote on either side of one space or punctuation character, or the text
/// of a comment; and `syn` knows all of these.
#[verifier::external_body]
pub(crate) fn generics_read(text: &str) -> (read: Option<(usize, usize)>)
    requires
        is_written_out(text@),
    ensures
        read == syn_generics_read(text@),
{
    proc_macro2::fallback::force();
    let front = |input: syn::parse::ParseStream| {
        input.parse::<syn::Generics>()?;
        input.parse::<proc_macro2::TokenStream>()
    };
    let read = match proc_macro2::TokenStream::from_str(text) {
        Ok(stream) => match (stream.clone().into_iter().count(), syn::parse::Parser::parse2(front, stream)) {
            (lexed, Ok(rest)) => Some((lexed, rest.into_iter().count())),
            (_, Err(_)) => None,
        },
        Err(_) => None,
    };
    proc_macro2::fallback::unforce();
    read
}

/// `proc_macro2::TokenStream::from_str` lexes `text`, and
/// `syn::parse::Parser::parse2` runs `<syn::Pat as syn::parse::Parse>::parse`
/// on the front of the token trees. The result is the number of token trees
/// lexed and the number that the parser left unread, and `None` where `text`
/// does not lex or the parser fails. `proc_macro2::fallback::force` makes the
/// lexer that of `proc_macro2` itself, whatever process this is; `unforce`
/// gives the choice back. Nothing is claimed of the result but that it
/// depends on `text` alone. The parser panics on a literal that `syn` does
/// not know. The text that is asked for holds no literal of a declaration:
/// what lexes into a literal there is a stand-in, `0`, `""` or `'0'`, or a
/// quote on either side of one space or punctuation character, or the text
/// of a comment; and `syn` knows all of these.
#[verifier::external_body]
pub(crate) fn pattern_read(text: &str) -> (read: Option<(usize, usize)>)
    requires
        is_written_out(text@),
    ensures
        read == syn_pattern_read(text@),
{
    proc_macro2::fallback::force();
    let front = |input: syn::parse::ParseStream| {
        input.parse::<syn::Pat>()?;
        input.parse::<proc_macro2::TokenStream>()
    };
    let read = match proc_macro2::TokenStream::from_str(text) {
        Ok(stream) => match (stream.clone().into_iter().count(), syn::parse::Parser::parse2(front, stream)) {
            (lexed, Ok(rest)) => Some((lexed, rest.into_iter().count())),
            (_, Err(_)) => None,
        },
        Err(_) => None,
    };
    proc_macro2::fallback::unforce();
    read
}

/// `proc_macro2::TokenStream::from_str` lexes `text`, and
/// `syn::parse::Parser::parse2` runs `<syn::Type as syn::parse::Parse>::parse`
/// on the front of the token trees. The result is the number of token trees
/// lexed and the number that the parser left unread, and `None` where `text`
/// does not lex or the parser fails. `proc_macro2::fallback::force` makes the
/// lexer that of `proc_macro2` itself, whatever process this is; `unforce`
/// gives the choice back. Nothing is claimed of the result but that it
/// depends on `text` alone. The parser panics on a literal that `syn` does
/// not know. The text that is asked for holds no literal of a declaration:
/// what lexes into a literal there is a stand-in, `0`, `""` or `'0'`, or a
/// quote on either side of one space or punctuation character, or the text
/// of a comment; and `syn` knows all of these.
#[verifier::external_body]
pub(crate) fn type_read(text: &str) -> (read: Option<(usize, usize)>)
    requires
        is_written_out(text@),
    ensures
        read == syn_type_read(text@),
{
    proc_macro2::fallback::force();
    let front = |input: syn::parse::ParseStream| {
        input.parse::<syn::Type>()?;
        input.parse::<proc_macro2::TokenStream>()
    };
    let read = match proc_macro2::TokenStream::from_str(text) {
        Ok(stream) => match (stream.clone().into_iter().count(), syn::parse::Parser::parse2(front, stream)) {
            (lexed, Ok(rest)) => Some((lexed, rest.into_iter().count())),
            (_, Err(_)) => None,
        },
        Err(_) => None,
    };
    proc_macro2::fallback::unforce();
    read
}

/// `proc_macro2::TokenStream::from_str` lexes `text`, and
/// `syn::parse::Parser::parse2` runs `<syn::WhereClause as syn::parse::Parse>::parse`
/// on the front of the token trees. The result is the number of token trees
/// lexed and the number that the parser left unread, and `None` where `text`
/// does not lex or the parser fails. `proc_macro2::fallback::force` makes the
/// lexer that of `proc_macro2` itself, whatever process this is; `unforce`
/// gives the choice back. Nothing is claimed of the result but that it
/// depends on `text` alone. The parser panics on a literal that `syn` does
/// not know. The text that is asked for holds no literal of a declaration:
/// what lexes into a literal there is a stand-in, `0`, `""` or `'0'`, or a
/// quote on either side of one space or punctuation character, or the text
/// of a comment; and `syn` knows all of these.
#[verifier::external_body]
pub(crate) fn where_read(text: &str) -> (read: Option<(usize, usize)>)
    requires
        is_written_out(text@),
    ensures
        read == syn_where_read(text@),
{
    proc_macro2::fallback::force();
    let front = |input: syn::parse::ParseStream| {
        input.parse::<syn::WhereClause>()?;
        input.parse::<proc_macro2::TokenStream>()
    };
    let read = match proc_macro2::TokenStream::from_str(text) {
        Ok(stream) => match (stream.clone().into_iter().count(), syn::parse::Parser::parse2(front, stream)) {
            (lexed, Ok(rest)) => Some((lexed, rest.into_iter().count())),
            (_, Err(_)) => None,
        },
        Err(_) => None,
    };
    proc_macro2::fallback::unforce();
    read
}

/// The embedded grammars.
#[derive(Clone, Copy, Debug, PartialEq, Eq, Structural)]
pub enum Grammar {
    Visibility,
    Generics,
    Pattern,
    Type,
    Constraint,
}

/// What `syn` lexes `text` into and leaves of it once it has read `grammar`
/// from its front.
pub open spec fn syn_read(grammar: Grammar, text: Seq<char>) -> Option<(usize, usize)> {
    match grammar {
        Grammar::Visibility => syn_visibility_read(text),
        Grammar::Generics => syn_generics_read(text),
        Grammar::Pattern => syn_pattern_read(text),
        Grammar::Type => syn_type_read(text),
        Grammar::Constraint => syn_where_read(text),
    }
}

/// The place where a reading ends that began at `start` in `len` tokens.
/// The reading must have lexed as many token trees as were handed over,
/// `len - start`, and have left no more than it lexed; it then ended where
/// as many tokens are left as it left unread. A reading that failed, or that
/// lexed another number of trees than it was given, ends nowhere.
pub open spec fn extent(len: int, start: int, read: Option<(usize, usize)>) -> Option<int> {
    match read {
        Some((lexed, left)) => if lexed == len - start && left <= lexed {
            Some(len - left)
        } else {
            None
        },
        None => None,
    }
}

/// How far the tokens are handed over when `grammar` is read at `start` in
/// `len` tokens: a visibility is the word `pub` and a group behind it, or
/// the word `crate` with no `::` behind it, so three tokens show it whole;
/// every other part is shown all the tokens that follow.
pub open spec fn window_end(grammar: Grammar, len: int, start: int) -> int {
    if grammar == Grammar::Visibility && len - start > 3 {
        start + 3
    } else {
        len
    }
}

/// The place where `grammar` ends in `s` when read from `start`: nowhere
/// where the tokens that are handed over cannot be written out, and else
/// where the reading of what is written out for them ends.
pub open spec fn grammar_end(grammar: Grammar, s: Seq<Tree>, start: int) -> Option<int> {
    let stop = window_end(grammar, s.len() as int, start);
    let shown = s.subrange(start, stop);
    if 0 <= start <= s.len() && readable(shown) {
        extent(stop, start, syn_read(grammar, stream_reading(shown)))
    } else {
        None
    }
}

/// Whether the executable answer `end` states the position `place`.
pub open spec fn is_place(end: Option<usize>, place: Option<int>) -> bool {
    match end {
        Some(e) => place == Some(e as int),
        None => place is None,
    }
}

/// Turns what a reading lexed and left unread into the position where it
/// ended.
pub fn extent_end(len: usize, start: usize, read: Option<(usize, usize)>) -> (end: Option<usize>)
    ensures
        is_place(end, extent(len as int, start as int, read)),
        end matches Some(e) ==> start <= e <= len,
{
    match read {
        Some((lexed, left)) => if start <= len && lexed == len - start && left <= lexed {
            Some(len - left)
        } else {
            None
        },
        None => None,
    }
}

/// Finds where `grammar` ends in `tokens` when read from `start`: the tokens
/// from `start` on are written out, for a visibility the first three of
/// them; `syn` reads `grammar` from the front of what is written, and what
/// it leaves unread is counted back from the last token written. Behind the
/// last token nothing is read, and nothing where a token cannot be written
/// out or the text lexes into another number of trees than was written.
pub fn measure(grammar: Grammar, tokens: &Vec<TokenTree>, start: usize) -> (end: Option<usize>)
    ensures
        is_place(end, grammar_end(grammar, trees(tokens@), start as int)),
        end matches Some(e) ==> start <= e <= tokens.len(),
{
    if start > tokens.len() {
        return None;
    }
    let stop: usize = match grammar {
        Grammar::Visibility => if tokens.len() - start > 3 {
            start + 3
        } else {
            tokens.len()
        },
        _ => tokens.len(),
    };
    let mut text = String::new();
    if !write_reading(&mut text, tokens, start, stop) {
        return None;
    }
    proof {
        let shown = trees(tokens@).subrange(start as int, stop as int);
        assert(text@ =~= stream_reading(shown));
        assert(is_written_out(text@));
    }
    let read = match grammar {
        Grammar::Visibility => visibility_read(text.as_str()),
        Grammar::Generics => generics_read(text.as_str()),
        Grammar::Pattern => pattern_read(text.as_str()),
        Grammar::Type => type_read(text.as_str()),
        Grammar::Constraint => where_read(text.as_str()),
    };
    extent_end(stop, start, read)
}

} // verus!
