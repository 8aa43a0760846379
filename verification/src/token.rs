//! Token trees: the lexical input and output of an expansion.
//!
//! [`TokenTree`] is the executable type, [`Tree`] its mathematical model.
//! Contracts throughout the crate speak of models, so that two token trees
//! with the same text, spacing, spans and nesting are never told apart.

use vstd::prelude::*;

verus! {

/// Where a token stands in the source text.
#[derive(Clone, Copy, Debug, PartialEq, Eq, Structural)]
pub enum Span {
    /// The place of the invocation as a whole; tokens made by the expansion carry it.
    CallSite,
    /// A place in the source, named by the number the caller gave it.
    Source(usize),
}

/// The brackets around a group of tokens.
#[derive(Clone, Copy, Debug, PartialEq, Eq, Structural)]
pub enum Delimiter {
    Parenthesis,
    Brace,
    Bracket,
}

/// Whether a punctuation character is followed at once by another one.
#[derive(Clone, Copy, Debug, PartialEq, Eq, Structural)]
pub enum Spacing {
    Alone,
    Joint,
}

/// A punctuation character as it was written: whether another followed it
/// at once, and where it stood.
#[derive(Clone, Copy, Debug, PartialEq, Eq, Structural)]
pub struct Mark {
    pub spacing: Spacing,
    pub span: Span,
}

/// The mathematical model of a token tree.
pub enum Tree {
    Ident { text: Seq<char>, span: Span },
    Punct { ch: char, spacing: Spacing, span: Span },
    Literal { text: Seq<char>, span: Span },
    Group { delimiter: Delimiter, stream: Seq<Tree>, span: Span },
}

impl Tree {
    /// The span of the token; for a group, of the group as a whole.
    pub open spec fn span(self) -> Span {
        match self {
            Tree::Ident { span, .. } => span,
            Tree::Punct { span, .. } => span,
            Tree::Literal { span, .. } => span,
            Tree::Group { span, .. } => span,
        }
    }

    /// The token is the word `word`.
    pub open spec fn is_word(self, word: Seq<char>) -> bool {
        self matches Tree::Ident { text, .. } && text == word
    }

    /// The token is the punctuation character `ch`, whatever follows it.
    pub open spec fn is_punct(self, ch: char) -> bool {
        self matches Tree::Punct { ch: c, .. } && c == ch
    }

    /// The token is the punctuation character `ch`, followed at once by another.
    pub open spec fn is_joint(self, ch: char) -> bool {
        self matches Tree::Punct { ch: c, spacing, .. } && c == ch && spacing == Spacing::Joint
    }

    /// The token is a group in the brackets `delimiter`.
    pub open spec fn is_group(self, delimiter: Delimiter) -> bool {
        self matches Tree::Group { delimiter: d, .. } && d == delimiter
    }

    /// The tokens inside a group; nothing for any other token.
    pub open spec fn inner(self) -> Seq<Tree> {
        match self {
            Tree::Group { stream, .. } => stream,
            _ => Seq::empty(),
        }
    }
}

/// The word `text` at `span`.
pub open spec fn word(text: Seq<char>, span: Span) -> Tree {
    Tree::Ident { text, span }
}

/// The punctuation character `ch` at `span`, with nothing joined to it.
pub open spec fn alone(ch: char, span: Span) -> Tree {
    Tree::Punct { ch, spacing: Spacing::Alone, span }
}

/// The punctuation character `ch` at `span`, joined to the one after it.
pub open spec fn joint(ch: char, span: Span) -> Tree {
    Tree::Punct { ch, spacing: Spacing::Joint, span }
}

/// The group of `stream` in the brackets `delimiter` at `span`.
pub open spec fn group(delimiter: Delimiter, stream: Seq<Tree>, span: Span) -> Tree {
    Tree::Group { delimiter, stream, span }
}

/// A token tree: a word, a punctuation character, a literal, or a bracketed group.
#[derive(Debug, PartialEq, Eq)]
pub enum TokenTree {
    Ident { text: String, span: Span },
    Punct { ch: char, spacing: Spacing, span: Span },
    Literal { text: String, span: Span },
    Group { delimiter: Delimiter, stream: Vec<TokenTree>, span: Span },
}

impl TokenTree {
    /// The model of the token tree: the same tree over mathematical sequences.
    pub open spec fn model(self) -> Tree
        decreases self,
    {
        match self {
            TokenTree::Ident { text, span } => Tree::Ident { text: text@, span },
            TokenTree::Punct { ch, spacing, span } => Tree::Punct { ch, spacing, span },
            TokenTree::Literal { text, span } => Tree::Literal { text: text@, span },
            TokenTree::Group { delimiter, stream, span } => Tree::Group {
                delimiter,
                stream: Seq::new(
                    stream@.len(),
                    |i: int|
                        if 0 <= i < stream@.len() {
                            stream@[i].model()
                        } else {
                            arbitrary()
                        },
                ),
                span,
            },
        }
    }
}

impl View for TokenTree {
    type V = Tree;

    open spec fn view(&self) -> Tree {
        self.model()
    }
}

/// The models of a sequence of token trees, in order.
pub open spec fn trees(s: Seq<TokenTree>) -> Seq<Tree> {
    Seq::new(s.len(), |i: int| s[i]@)
}

/// The model of a group holds the models of the tokens inside it.
pub proof fn lemma_group_view(t: TokenTree)
    ensures
        t matches TokenTree::Group { delimiter, stream, span } ==> t@ == group(
            delimiter,
            trees(stream@),
            span,
        ),
{
    if let TokenTree::Group { delimiter, stream, span } = t {
        assert(t@.inner() =~= trees(stream@));
    }
}

/// Taking models commutes with appending one token.
pub proof fn lemma_trees_push(s: Seq<TokenTree>, t: TokenTree)
    ensures
        trees(s.push(t)) == trees(s).push(t@),
{
    assert(trees(s.push(t)) =~= trees(s).push(t@));
}

/// Taking models commutes with concatenation.
pub proof fn lemma_trees_add(a: Seq<TokenTree>, b: Seq<TokenTree>)
    ensures
        trees(a + b) == trees(a) + trees(b),
{
    assert(trees(a + b) =~= trees(a) + trees(b));
}

impl TokenTree {
    /// The word `text` at `span`.
    pub fn ident(text: &str, span: Span) -> (t: TokenTree)
        ensures
            t@ == word(text@, span),
    {
        TokenTree::Ident { text: String::from_str(text), span }
    }

    /// The punctuation character `ch` at `span`.
    pub fn punct(ch: char, spacing: Spacing, span: Span) -> (t: TokenTree)
        ensures
            t@ == (Tree::Punct { ch, spacing, span }),
    {
        TokenTree::Punct { ch, spacing, span }
    }

    /// The literal written `text` at `span`.
    pub fn literal(text: &str, span: Span) -> (t: TokenTree)
        ensures
            t@ == (Tree::Literal { text: text@, span }),
    {
        TokenTree::Literal { text: String::from_str(text), span }
    }

    /// The group of `stream` in the brackets `delimiter` at `span`.
    pub fn group(delimiter: Delimiter, stream: Vec<TokenTree>, span: Span) -> (t: TokenTree)
        ensures
            t@ == group(delimiter, trees(stream@), span),
    {
        let t = TokenTree::Group { delimiter, stream, span };
        proof {
            lemma_group_view(t);
        }
        t
    }

    /// The span of the token; for a group, of the group as a whole.
    pub fn span(&self) -> (s: Span)
        ensures
            s == self@.span(),
    {
        match self {
            TokenTree::Ident { span, .. } => *span,
            TokenTree::Punct { span, .. } => *span,
            TokenTree::Literal { span, .. } => *span,
            TokenTree::Group { span, .. } => *span,
        }
    }

    /// Whether the token is the word `word`.
    pub fn is_word(&self, word: &str) -> (b: bool)
        ensures
            b == self@.is_word(word@),
    {
        match self {
            TokenTree::Ident { text, .. } => *text == String::from_str(word),
            _ => false,
        }
    }

    /// Whether the token is the punctuation character `ch`.
    pub fn is_punct(&self, ch: char) -> (b: bool)
        ensures
            b == self@.is_punct(ch),
    {
        match self {
            TokenTree::Punct { ch: c, .. } => *c == ch,
            _ => false,
        }
    }

    /// Whether the token is the punctuation character `ch` joined to the next.
    pub fn is_joint(&self, ch: char) -> (b: bool)
        ensures
            b == self@.is_joint(ch),
    {
        match self {
            TokenTree::Punct { ch: c, spacing, .. } => *c == ch && *spacing == Spacing::Joint,
            _ => false,
        }
    }

    /// Whether the token is a group in the brackets `delimiter`.
    pub fn is_group(&self, delimiter: Delimiter) -> (b: bool)
        ensures
            b == self@.is_group(delimiter),
    {
        match self {
            TokenTree::Group { delimiter: d, .. } => *d == delimiter,
            _ => false,
        }
    }

    /// The tokens inside the token, where it is a group in the brackets
    /// `delimiter`.
    pub fn as_group(&self, delimiter: Delimiter) -> (inner: Option<&Vec<TokenTree>>)
        ensures
            inner is Some <==> self@.is_group(delimiter),
            inner matches Some(stream) ==> trees(stream@) == self@.inner(),
    {
        proof {
            lemma_group_view(*self);
        }
        match self {
            TokenTree::Group { delimiter: d, stream, .. } => if *d == delimiter {
                Some(stream)
            } else {
                None
            },
            _ => None,
        }
    }

    /// A copy of the token tree, with everything inside it.
    pub fn duplicate(&self) -> (t: TokenTree)
        ensures
            t@ == self@,
        decreases self,
    {
        match self {
            TokenTree::Ident { text, span } => TokenTree::Ident { text: text.clone(), span: *span },
            TokenTree::Punct { ch, spacing, span } => TokenTree::Punct {
                ch: *ch,
                spacing: *spacing,
                span: *span,
            },
            TokenTree::Literal { text, span } => TokenTree::Literal {
                text: text.clone(),
                span: *span,
            },
            TokenTree::Group { delimiter, stream, span } => {
                let inner = copy_range(stream, 0, stream.len());
                proof {
                    lemma_group_view(*self);
                    assert(trees(stream@).subrange(0, stream@.len() as int) =~= trees(stream@));
                }
                TokenTree::group(*delimiter, inner, *span)
            },
        }
    }
}

/// The span of the token at `pos`, and `end` where the tokens stop before it.
pub open spec fn span_at(s: Seq<Tree>, pos: int, end: Span) -> Span {
    if 0 <= pos < s.len() {
        s[pos].span()
    } else {
        end
    }
}

/// The token at `pos` is the word `word`.
pub open spec fn word_at(s: Seq<Tree>, pos: int, word: Seq<char>) -> bool {
    0 <= pos < s.len() && s[pos].is_word(word)
}

/// The token at `pos` is the punctuation character `ch`.
pub open spec fn punct_at(s: Seq<Tree>, pos: int, ch: char) -> bool {
    0 <= pos < s.len() && s[pos].is_punct(ch)
}

/// The tokens at `pos` and after it are the two characters `first` and
/// `second`, written without a space between them.
pub open spec fn pair_at(s: Seq<Tree>, pos: int, first: char, second: char) -> bool {
    0 <= pos < s.len() - 1 && s[pos].is_joint(first) && s[pos + 1].is_punct(second)
}

/// The token at `pos` is a group in the brackets `delimiter`.
pub open spec fn group_at(s: Seq<Tree>, pos: int, delimiter: Delimiter) -> bool {
    0 <= pos < s.len() && s[pos].is_group(delimiter)
}

/// How the punctuation character at `pos` was written.
pub open spec fn mark_at(s: Seq<Tree>, pos: int) -> Mark {
    match s[pos] {
        Tree::Punct { spacing, span, .. } => Mark { spacing, span },
        _ => Mark { spacing: Spacing::Alone, span: s[pos].span() },
    }
}

/// The punctuation character `ch` written as `mark` tells.
pub open spec fn marked(ch: char, mark: Mark) -> Tree {
    Tree::Punct { ch, spacing: mark.spacing, span: mark.span }
}

/// How the punctuation character `ch` at `pos` was written, where it stands
/// there.
pub fn punct_mark(tokens: &Vec<TokenTree>, pos: usize, ch: char) -> (mark: Option<Mark>)
    ensures
        mark is Some <==> punct_at(trees(tokens@), pos as int, ch),
        mark matches Some(m) ==> m == mark_at(trees(tokens@), pos as int) && pos < tokens.len(),
{
    if pos >= tokens.len() {
        return None;
    }
    match &tokens[pos] {
        TokenTree::Punct { ch: c, spacing, span } => if *c == ch {
            Some(Mark { spacing: *spacing, span: *span })
        } else {
            None
        },
        _ => None,
    }
}

/// The span of the token at `pos`, and `end` where the tokens stop before it.
pub fn span_of(tokens: &Vec<TokenTree>, pos: usize, end: Span) -> (span: Span)
    ensures
        span == span_at(trees(tokens@), pos as int, end),
{
    if pos < tokens.len() {
        tokens[pos].span()
    } else {
        end
    }
}

/// Whether the token at `pos` is the word `word`.
pub fn has_word(tokens: &Vec<TokenTree>, pos: usize, word: &str) -> (b: bool)
    ensures
        b == word_at(trees(tokens@), pos as int, word@),
        b ==> pos < tokens.len(),
{
    pos < tokens.len() && tokens[pos].is_word(word)
}

/// Whether the token at `pos` is the punctuation character `ch`.
pub fn has_punct(tokens: &Vec<TokenTree>, pos: usize, ch: char) -> (b: bool)
    ensures
        b == punct_at(trees(tokens@), pos as int, ch),
        b ==> pos < tokens.len(),
{
    pos < tokens.len() && tokens[pos].is_punct(ch)
}

/// Whether the tokens at `pos` and after it are `first` and `second`, written
/// without a space between them.
pub fn has_pair(tokens: &Vec<TokenTree>, pos: usize, first: char, second: char) -> (b: bool)
    ensures
        b == pair_at(trees(tokens@), pos as int, first, second),
        b ==> pos + 1 < tokens.len(),
{
    pos < tokens.len() && tokens.len() - pos > 1 && tokens[pos].is_joint(first) && tokens[pos
        + 1].is_punct(second)
}

/// Whether the token at `pos` is a group in the brackets `delimiter`.
pub fn has_group(tokens: &Vec<TokenTree>, pos: usize, delimiter: Delimiter) -> (b: bool)
    ensures
        b == group_at(trees(tokens@), pos as int, delimiter),
        b ==> pos < tokens.len(),
{
    pos < tokens.len() && tokens[pos].is_group(delimiter)
}

/// Copies of the tokens of `tokens` from `from` up to `to`, in order.
pub fn copy_range(tokens: &Vec<TokenTree>, from: usize, to: usize) -> (part: Vec<TokenTree>)
    requires
        from <= to <= tokens.len(),
    ensures
        trees(part@) == trees(tokens@).subrange(from as int, to as int),
    decreases tokens,
{
    let mut part: Vec<TokenTree> = Vec::new();
    let mut i: usize = from;
    while i < to
        invariant
            from <= i <= to <= tokens.len(),
            trees(part@) == trees(tokens@).subrange(from as int, i as int),
        decreases to - i,
    {
        let t = tokens[i].duplicate();
        proof {
            lemma_trees_push(part@, t);
            assert(trees(tokens@).subrange(from as int, i as int).push(tokens@[i as int]@)
                =~= trees(tokens@).subrange(from as int, i + 1));
        }
        part.push(t);
        i += 1;
    }
    part
}

/// Copies of all the tokens of `tokens`, in order.
pub fn copy_all(tokens: &Vec<TokenTree>) -> (all: Vec<TokenTree>)
    ensures
        trees(all@) == trees(tokens@),
{
    proof {
        assert(trees(tokens@).subrange(0, tokens@.len() as int) =~= trees(tokens@));
    }
    copy_range(tokens, 0, tokens.len())
}

/// Appends copies of the tokens of `more` to `out`.
pub fn extend_copy(out: &mut Vec<TokenTree>, more: &Vec<TokenTree>)
    ensures
        trees(final(out)@) == trees(old(out)@) + trees(more@),
{
    let mut copy = copy_all(more);
    proof {
        lemma_trees_add(out@, copy@);
    }
    out.append(&mut copy);
}

} // verus!
