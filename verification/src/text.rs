//! Text: the form in which token trees are written out to be read as part
//! of the host language, and decimal numerals.
//!
//! What is written out is not the tokens as they are. A literal is written
//! as a stand-in of its kind, so that its own text is never read; a group in
//! braces is written without what it holds, so that bodies are never read.
//! Tokens that are no tokens of the host language are not written at all.

use crate::syntax::{syn_word, word_like};
use crate::token::{lemma_group_view, trees, Delimiter, Spacing, TokenTree, Tree};
use vstd::prelude::*;

verus! {

/// `String::push` of the standard library: `ch` is appended to `text`.
#[verifier::external_body]
pub(crate) fn push_char(text: &mut String, ch: char)
    ensures
        final(text)@ == old(text)@.push(ch),
{
    text.push(ch)
}

/// The character that opens a group.
pub open spec fn opening(delimiter: Delimiter) -> char {
    match delimiter {
        Delimiter::Parenthesis => '(',
        Delimiter::Brace => '{',
        Delimiter::Bracket => '[',
    }
}

/// The character that closes a group.
pub open spec fn closing(delimiter: Delimiter) -> char {
    match delimiter {
        Delimiter::Parenthesis => ')',
        Delimiter::Brace => '}',
        Delimiter::Bracket => ']',
    }
}

/// The characters that are punctuation in the host language.
pub open spec fn punct_char(ch: char) -> bool {
    ch == '~' || ch == '!' || ch == '@' || ch == '#' || ch == '$' || ch == '%' || ch == '^' || ch
        == '&' || ch == '*' || ch == '-' || ch == '=' || ch == '+' || ch == '|' || ch == ';' || ch
        == ':' || ch == ',' || ch == '<' || ch == '.' || ch == '>' || ch == '/' || ch == '?' || ch
        == '\''
}

/// Whether `ch` is punctuation in the host language.
pub fn is_punct_char(ch: char) -> (b: bool)
    ensures
        b == punct_char(ch),
{
    ch == '~' || ch == '!' || ch == '@' || ch == '#' || ch == '$' || ch == '%' || ch == '^' || ch
        == '&' || ch == '*' || ch == '-' || ch == '=' || ch == '+' || ch == '|' || ch == ';' || ch
        == ':' || ch == ',' || ch == '<' || ch == '.' || ch == '>' || ch == '/' || ch == '?' || ch
        == '\''
}

/// The character begins a number: a decimal digit or a minus sign.
pub open spec fn begins_number(ch: char) -> bool {
    ch == '0' || ch == '1' || ch == '2' || ch == '3' || ch == '4' || ch == '5' || ch == '6' || ch
        == '7' || ch == '8' || ch == '9' || ch == '-'
}

/// What is written in place of a literal with the text `text`: `'0'` for one
/// that begins like a character, `0` for one that begins like a number, and
/// `""` for every other.
pub open spec fn stand_in(text: Seq<char>) -> Seq<char> {
    if text.len() > 0 && text[0] == '\'' {
        "'0'"@
    } else if text.len() > 0 && begins_number(text[0]) {
        "0"@
    } else {
        "\"\""@
    }
}

/// Appends the stand-in of the literal written `lit` to `text`.
pub fn write_stand_in(text: &mut String, lit: &str)
    ensures
        final(text)@ == old(text)@ + stand_in(lit@),
{
    if lit.is_empty() {
        text.append("\"\"");
        return ;
    }
    let ch = lit.get_char(0);
    if ch == '\'' {
        text.append("'0'");
    } else if ch == '0' || ch == '1' || ch == '2' || ch == '3' || ch == '4' || ch == '5' || ch
        == '6' || ch == '7' || ch == '8' || ch == '9' || ch == '-' {
        text.append("0");
    } else {
        text.append("\"\"");
    }
}

/// Whether a token tree can be written out to be read: a word must be one
/// word of the host language, reserved or not, and a punctuation character
/// one of its punctuation; a group must hold such tokens, unless it is in
/// braces.
pub open spec fn tree_readable(t: Tree) -> bool
    decreases t,
{
    match t {
        Tree::Ident { text, .. } => syn_word(text),
        Tree::Punct { ch, .. } => punct_char(ch),
        Tree::Literal { .. } => true,
        Tree::Group { delimiter, stream, .. } => delimiter == Delimiter::Brace || forall|i: int|
            0 <= i < stream.len() ==> tree_readable(#[trigger] stream[i]),
    }
}

/// Whether every one of the token trees can be written out to be read.
pub open spec fn readable(s: Seq<Tree>) -> bool {
    forall|i: int| 0 <= i < s.len() ==> tree_readable(#[trigger] s[i])
}

/// What is written out for one token tree. A word is its text and a space; a
/// literal is its stand-in and a space; a punctuation character is followed
/// by a space unless it is joined to the next; a group in braces is `{}` and
/// a space; any other group is what is written out for its tokens, between
/// its brackets, and a space.
pub open spec fn tree_reading(t: Tree) -> Seq<char>
    decreases t, 0nat,
{
    match t {
        Tree::Ident { text, .. } => text.push(' '),
        Tree::Literal { text, .. } => stand_in(text).push(' '),
        Tree::Punct { ch, spacing, .. } => if spacing == Spacing::Joint {
            seq![ch]
        } else {
            seq![ch, ' ']
        },
        Tree::Group { delimiter, stream, .. } => if delimiter == Delimiter::Brace {
            seq!['{', '}', ' ']
        } else {
            (seq![opening(delimiter)] + prefix_reading(stream, stream.len())).push(
                closing(delimiter),
            ).push(' ')
        },
    }
}

/// What is written out for the first `n` token trees of `s`, one after the
/// other.
pub open spec fn prefix_reading(s: Seq<Tree>, n: nat) -> Seq<char>
    decreases s, n,
{
    if n == 0 || n > s.len() {
        Seq::empty()
    } else {
        prefix_reading(s, (n - 1) as nat) + tree_reading(s[n - 1])
    }
}

/// What is written out for a sequence of token trees.
pub open spec fn stream_reading(s: Seq<Tree>) -> Seq<char> {
    prefix_reading(s, s.len())
}

/// Appends to `text` what is written out for `t`, where it can be written
/// out, and says whether it can.
pub fn write_reading_tree(text: &mut String, t: &TokenTree) -> (ok: bool)
    ensures
        ok == tree_readable(t@),
        ok ==> final(text)@ == old(text)@ + tree_reading(t@),
    decreases t,
{
    match t {
        TokenTree::Ident { text: word, .. } => {
            if !word_like(word.as_str()) {
                return false;
            }
            text.append(word.as_str());
            push_char(text, ' ');
            assert(text@ =~= old(text)@ + tree_reading(t@));
            true
        },
        TokenTree::Literal { text: lit, .. } => {
            write_stand_in(text, lit.as_str());
            push_char(text, ' ');
            assert(text@ =~= old(text)@ + tree_reading(t@));
            true
        },
        TokenTree::Punct { ch, spacing, .. } => {
            if !is_punct_char(*ch) {
                return false;
            }
            push_char(text, *ch);
            if *spacing == Spacing::Alone {
                push_char(text, ' ');
            }
            assert(text@ =~= old(text)@ + tree_reading(t@));
            true
        },
        TokenTree::Group { delimiter, stream, .. } => {
            proof {
                lemma_group_view(*t);
            }
            match delimiter {
                Delimiter::Brace => {
                    push_char(text, '{');
                    push_char(text, '}');
                    push_char(text, ' ');
                    assert(text@ =~= old(text)@ + tree_reading(t@));
                    true
                },
                _ => {
                    let (open, close) = match delimiter {
                        Delimiter::Bracket => ('[', ']'),
                        _ => ('(', ')'),
                    };
                    push_char(text, open);
                    assert(trees(stream@).subrange(0, stream@.len() as int) =~= trees(stream@));
                    assert(tree_readable(t@) == readable(trees(stream@))) by {
                        if tree_readable(t@) {
                            assert forall|i: int| 0 <= i < stream@.len() implies tree_readable(
                                #[trigger] trees(stream@)[i],
                            ) by {
                                assert(tree_readable(t@.inner()[i]));
                            }
                        }
                    }
                    if !write_reading(text, stream, 0, stream.len()) {
                        return false;
                    }
                    push_char(text, close);
                    push_char(text, ' ');
                    assert(text@ =~= old(text)@ + tree_reading(t@));
                    true
                },
            }
        },
    }
}

/// Appends to `text` what is written out for the tokens of `tokens` from
/// `from` up to `to`, where they can be written out, and says whether they
/// can.
pub fn write_reading(text: &mut String, tokens: &Vec<TokenTree>, from: usize, to: usize) -> (ok:
    bool)
    requires
        from <= to <= tokens.len(),
    ensures
        ok == readable(trees(tokens@).subrange(from as int, to as int)),
        ok ==> final(text)@ == old(text)@ + stream_reading(
            trees(tokens@).subrange(from as int, to as int),
        ),
    decreases tokens,
{
    let ghost part = trees(tokens@).subrange(from as int, to as int);
    let mut i: usize = from;
    assert(text@ =~= old(text)@ + prefix_reading(part, 0));
    while i < to
        invariant
            from <= i <= to <= tokens.len(),
            part == trees(tokens@).subrange(from as int, to as int),
            forall|k: int| 0 <= k < i - from ==> tree_readable(#[trigger] part[k]),
            text@ == old(text)@ + prefix_reading(part, (i - from) as nat),
        decreases to - i,
    {
        assert(part[i - from] == tokens@[i as int]@);
        if !write_reading_tree(text, &tokens[i]) {
            return false;
        }
        proof {
            assert(text@ =~= old(text)@ + prefix_reading(part, (i + 1 - from) as nat));
        }
        i += 1;
    }
    true
}

/// The decimal digit for a number below ten.
pub open spec fn digit(d: nat) -> char {
    if d == 0 {
        '0'
    } else if d == 1 {
        '1'
    } else if d == 2 {
        '2'
    } else if d == 3 {
        '3'
    } else if d == 4 {
        '4'
    } else if d == 5 {
        '5'
    } else if d == 6 {
        '6'
    } else if d == 7 {
        '7'
    } else if d == 8 {
        '8'
    } else {
        '9'
    }
}

/// The decimal numeral of `n`, without leading zeros.
pub open spec fn decimal(n: nat) -> Seq<char>
    decreases n,
{
    if n < 10 {
        seq![digit(n)]
    } else {
        decimal(n / 10).push(digit(n % 10))
    }
}

/// Appends the decimal numeral of `n` to `text`.
pub fn write_decimal(text: &mut String, n: usize)
    ensures
        final(text)@ == old(text)@ + decimal(n as nat),
    decreases n,
{
    if n >= 10 {
        write_decimal(text, n / 10);
    }
    let d: usize = n % 10;
    let ch = if d == 0 {
        '0'
    } else if d == 1 {
        '1'
    } else if d == 2 {
        '2'
    } else if d == 3 {
        '3'
    } else if d == 4 {
        '4'
    } else if d == 5 {
        '5'
    } else if d == 6 {
        '6'
    } else if d == 7 {
        '7'
    } else if d == 8 {
        '8'
    } else {
        '9'
    };
    push_char(text, ch);
    assert(text@ =~= old(text)@ + decimal(n as nat));
}

} // verus!
