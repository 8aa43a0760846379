use overloadable::emit::{
    emit_annotations, emit_arrow, emit_constraint, emit_optional, emit_return_type,
    emit_wrapped_body, push_alone, push_group, push_joint, push_name, push_tree, push_word,
};
use overloadable::free::{
    emit_free_impls, emit_marker, fn_items, fn_mut_items, fn_once_items, gen_fn_decls,
    pattern_tuple, type_tuple,
};
use overloadable::header::Ident;
use overloadable::member::{
    emit_impl_params, emit_member_items, emit_trait_params, gen_trait_fn_decls, make_trait_name,
};
use overloadable::error::{ErrorKind, ExpandError};
use overloadable::signature::{Annotation, Param, ParsedFnDef, ThisDef, WhereClause};
use overloadable::text::{is_punct_char, write_decimal, write_reading, write_reading_tree, write_stand_in};
use overloadable::token::{
    copy_all, copy_range, extend_copy, has_group, has_pair, has_punct, has_word, punct_mark,
    span_of, Delimiter, Mark, Spacing, Span, TokenTree,
};

const HERE: Span = Span::CallSite;

fn word(text: &str) -> TokenTree {
    TokenTree::ident(text, HERE)
}

fn word_at(text: &str, at: usize) -> TokenTree {
    TokenTree::ident(text, Span::Source(at))
}

fn alone(ch: char) -> TokenTree {
    TokenTree::punct(ch, Spacing::Alone, HERE)
}

fn joint(ch: char) -> TokenTree {
    TokenTree::punct(ch, Spacing::Joint, HERE)
}

fn parens(stream: Vec<TokenTree>) -> TokenTree {
    TokenTree::group(Delimiter::Parenthesis, stream, HERE)
}

fn braces(stream: Vec<TokenTree>) -> TokenTree {
    TokenTree::group(Delimiter::Brace, stream, HERE)
}

fn name(text: &str, at: usize) -> Ident {
    Ident { text: text.to_string(), span: Span::Source(at) }
}

/// `#[inline] fn(x: usize, (a, b): &str) -> f32 where T: Copy { x }`, with
/// spans that tell the parts apart.
fn sample() -> ParsedFnDef {
    ParsedFnDef {
        meta: vec![Annotation { meta: vec![word_at("inline", 1)], bracket: Span::Source(2) }],
        gen: Some(vec![alone('<'), word_at("T", 3), alone('>')]),
        paren: Span::Source(4),
        this: None,
        params: vec![
            Param { pattern: vec![word_at("x", 5)], ty: vec![word_at("usize", 6)] },
            Param {
                pattern: vec![TokenTree::group(
                    Delimiter::Parenthesis,
                    vec![word("a"), alone(','), word("b")],
                    Span::Source(7),
                )],
                ty: vec![alone('&'), word_at("str", 8)],
            },
        ],
        ret: Some(vec![word_at("f32", 9)]),
        w_clause: Some(WhereClause {
            keyword: Span::Source(10),
            predicates: vec![word("T"), alone(':'), word("Copy")],
        }),
        code: vec![word_at("x", 11)],
        brace: Span::Source(12),
    }
}

fn plain() -> ParsedFnDef {
    ParsedFnDef {
        meta: vec![],
        gen: None,
        paren: Span::Source(4),
        this: None,
        params: vec![],
        ret: None,
        w_clause: None,
        code: vec![],
        brace: Span::Source(12),
    }
}

#[test]
fn tokens_are_made_as_they_are_named() {
    assert_eq!(
        TokenTree::ident("fn", Span::Source(3)),
        TokenTree::Ident { text: "fn".to_string(), span: Span::Source(3) }
    );
    assert_eq!(
        TokenTree::punct(':', Spacing::Joint, HERE),
        TokenTree::Punct { ch: ':', spacing: Spacing::Joint, span: HERE }
    );
    assert_eq!(
        TokenTree::literal("\"rust-call\"", HERE),
        TokenTree::Literal { text: "\"rust-call\"".to_string(), span: HERE }
    );
    assert_eq!(
        TokenTree::group(Delimiter::Brace, vec![word("x")], Span::Source(1)),
        TokenTree::Group { delimiter: Delimiter::Brace, stream: vec![word("x")], span: Span::Source(1) }
    );
}

#[test]
fn tokens_answer_what_they_are() {
    let fn_word = word_at("fn", 3);
    assert_eq!(fn_word.span(), Span::Source(3));
    assert!(fn_word.is_word("fn"));
    assert!(!fn_word.is_word("f"));
    assert!(!fn_word.is_word("fnn"));
    assert!(!fn_word.is_word("Fn"));
    assert!(!fn_word.is_punct('f'));
    assert!(!fn_word.is_group(Delimiter::Brace));
    assert!(!TokenTree::literal("fn", HERE).is_word("fn"));
    assert!(alone(':').is_punct(':'));
    assert!(joint(':').is_punct(':'));
    assert!(!alone(':').is_punct(';'));
    assert!(joint(':').is_joint(':'));
    assert!(!alone(':').is_joint(':'));
    assert!(!joint(':').is_joint('-'));
    let group = TokenTree::group(Delimiter::Bracket, vec![word("a"), word("b")], Span::Source(9));
    assert_eq!(group.span(), Span::Source(9));
    assert!(group.is_group(Delimiter::Bracket));
    assert!(!group.is_group(Delimiter::Brace));
    assert!(!group.is_word("a"));
    assert_eq!(group.as_group(Delimiter::Bracket), Some(&vec![word("a"), word("b")]));
    assert_eq!(group.as_group(Delimiter::Parenthesis), None);
    assert_eq!(fn_word.as_group(Delimiter::Bracket), None);
}

#[test]
fn tokens_are_found_at_their_places() {
    let tokens = vec![word_at("self", 0), joint(':'), alone(':'), parens(vec![]), alone(':'), alone(':')];
    assert!(has_word(&tokens, 0, "self"));
    assert!(!has_word(&tokens, 1, "self"));
    assert!(!has_word(&tokens, 6, "self"));
    assert!(has_punct(&tokens, 1, ':'));
    assert!(has_punct(&tokens, 2, ':'));
    assert!(!has_punct(&tokens, 3, ':'));
    assert!(!has_punct(&tokens, 6, ':'));
    assert!(has_pair(&tokens, 1, ':', ':'));
    assert!(!has_pair(&tokens, 2, ':', ':'));
    assert!(!has_pair(&tokens, 4, ':', ':'));
    assert!(!has_pair(&tokens, 5, ':', ':'));
    assert!(!has_pair(&tokens, 0, ':', ':'));
    assert!(has_group(&tokens, 3, Delimiter::Parenthesis));
    assert!(!has_group(&tokens, 3, Delimiter::Brace));
    assert!(!has_group(&tokens, 9, Delimiter::Parenthesis));
    assert_eq!(span_of(&tokens, 0, Span::Source(7)), Span::Source(0));
    assert_eq!(span_of(&tokens, 1, Span::Source(7)), HERE);
    assert_eq!(span_of(&tokens, 6, Span::Source(7)), Span::Source(7));
}

#[test]
fn copies_are_equal_to_what_was_copied() {
    let tree = braces(vec![word_at("a", 1), parens(vec![joint('-'), alone('>'), TokenTree::literal("1u8", HERE)])]);
    assert_eq!(tree.duplicate(), tree);
    let tokens = vec![word("a"), tree.duplicate(), word("c"), alone(';')];
    assert_eq!(copy_all(&tokens), tokens);
    assert_eq!(copy_range(&tokens, 1, 3), vec![tree.duplicate(), word("c")]);
    assert_eq!(copy_range(&tokens, 2, 2), vec![]);
    assert_eq!(copy_range(&tokens, 0, 4), tokens);
    let mut out = vec![word("z")];
    extend_copy(&mut out, &tokens);
    assert_eq!(out, vec![word("z"), word("a"), tree, word("c"), alone(';')]);
    assert_eq!(name("f", 3).duplicate(), name("f", 3));
}

fn reading(tokens: &Vec<TokenTree>, from: usize) -> Option<String> {
    let mut text = String::new();
    if write_reading(&mut text, tokens, from, tokens.len()) {
        Some(text)
    } else {
        None
    }
}

#[test]
fn tokens_are_written_out_with_spaces_where_they_part() {
    let tokens = vec![
        word("fn"),
        alone('<'),
        joint('\''),
        word("a"),
        alone('>'),
        parens(vec![word("x"), alone(':'), alone('&'), word("str")]),
        joint('-'),
        alone('>'),
        TokenTree::group(Delimiter::Bracket, vec![word("u8"), alone(';'), TokenTree::literal("4", HERE)], HERE),
        braces(vec![]),
    ];
    assert_eq!(reading(&tokens, 0).unwrap(), "fn < 'a > (x : & str ) -> [u8 ; 0 ] {} ");
    assert_eq!(reading(&tokens, 5).unwrap(), "(x : & str ) -> [u8 ; 0 ] {} ");
    assert_eq!(reading(&tokens, 9).unwrap(), "{} ");
    assert_eq!(reading(&tokens, 10).unwrap(), "");
    let mut text = String::from("=");
    assert!(write_reading(&mut text, &tokens, 6, tokens.len()));
    let mut part = String::new();
    assert!(write_reading(&mut part, &tokens, 1, 5));
    assert_eq!(part, "< 'a > ");
    assert_eq!(text, "=-> [u8 ; 0 ] {} ");
    assert!(write_reading_tree(&mut text, &joint(':')));
    assert!(write_reading_tree(&mut text, &alone(':')));
    assert!(write_reading_tree(&mut text, &word("Self")));
    assert_eq!(text, "=-> [u8 ; 0 ] {} :: Self ");
}

#[test]
fn literals_are_written_out_as_stand_ins() {
    for (lit, stand_in) in [
        ("4", "0"),
        ("0x10usize", "0"),
        ("1.5e3", "0"),
        ("-1", "0"),
        ("'c'", "'0'"),
        ("'\\n'", "'0'"),
        ("\"C\"", "\"\""),
        ("r#\"a\"#", "\"\""),
        ("b\"x\"", "\"\""),
        ("b'x'", "\"\""),
        ("c\"x\"", "\"\""),
        ("true", "\"\""),
        ("", "\"\""),
        ("not a literal at all", "\"\""),
    ] {
        let mut text = String::from(">");
        write_stand_in(&mut text, lit);
        assert_eq!(text, format!(">{}", stand_in), "{}", lit);
        let mut text = String::new();
        assert!(write_reading_tree(&mut text, &TokenTree::literal(lit, HERE)));
        assert_eq!(text, format!("{} ", stand_in), "{}", lit);
    }
}

#[test]
fn what_stands_in_braces_is_not_written_out() {
    let body = braces(vec![
        word("not a word"),
        TokenTree::punct('"', Spacing::Alone, HERE),
        TokenTree::literal("c\"x\"", HERE),
        braces(vec![word("deeper")]),
    ]);
    assert_eq!(reading(&vec![word("u8"), body.duplicate(), alone(',')], 0).unwrap(), "u8 {} , ");
    assert_eq!(reading(&vec![parens(vec![word("Point"), body])], 0).unwrap(), "(Point {} ) ");
}

#[test]
fn what_is_no_token_of_the_language_is_not_written_out() {
    assert!(reading(&vec![word("a"), word("fn"), word("r#type"), word("_"), word("Self")], 0).is_some());
    for text in ["", "a b", "a-b", "1a", "7", "c\"x\"", "\"s\"", "'a", "a,", "(a)", "/// a"] {
        assert_eq!(reading(&vec![word("a"), word(text)], 0), None, "{:?}", text);
        assert_eq!(reading(&vec![parens(vec![word(text)])], 0), None, "{:?}", text);
        let bracket = TokenTree::group(Delimiter::Bracket, vec![parens(vec![word(text)])], HERE);
        assert_eq!(reading(&vec![bracket], 0), None, "{:?}", text);
        assert!(reading(&vec![word("a"), word(text)], 2).is_some());
        assert!(reading(&vec![word(text), word("a")], 1).is_some());
    }
    for ch in "~!@#$%^&*-=+|;:,<.>/?'".chars() {
        assert!(is_punct_char(ch));
        assert!(reading(&vec![alone(ch)], 0).is_some());
    }
    for ch in ['"', '\\', '(', ')', '{', '}', '[', ']', '_', 'a', '0', ' ', '`', '\n', 'é'] {
        assert!(!is_punct_char(ch));
        assert_eq!(reading(&vec![alone(ch)], 0), None);
        assert_eq!(reading(&vec![joint(ch), word("a")], 0), None);
    }
}

#[test]
fn numbers_are_written_in_decimal() {
    for (n, numeral) in [(0, "0"), (7, "7"), (9, "9"), (10, "10"), (11, "11"), (99, "99"), (100, "100"), (1234567890, "1234567890")] {
        let mut text = String::from("_");
        write_decimal(&mut text, n);
        assert_eq!(text, format!("_{}", numeral));
    }
    let mut text = String::new();
    write_decimal(&mut text, usize::MAX);
    assert_eq!(text, usize::MAX.to_string());
}

#[test]
fn trait_names_are_owner_trait_and_place() {
    let owner = name("Foo", 3);
    assert_eq!(make_trait_name(&owner, 0), word_at("FooTrait0", 3));
    assert_eq!(make_trait_name(&owner, 9), word_at("FooTrait9", 3));
    assert_eq!(make_trait_name(&owner, 10), word_at("FooTrait10", 3));
    assert_eq!(make_trait_name(&owner, 305), word_at("FooTrait305", 3));
    assert_ne!(make_trait_name(&name("Foo1", 3), 0), make_trait_name(&name("Foo", 3), 10));
    assert_ne!(make_trait_name(&owner, 1), make_trait_name(&owner, 10));
}

#[test]
fn pieces_are_appended_to_what_is_there() {
    let mut out = vec![word("a")];
    push_word(&mut out, "impl", Span::Source(1));
    push_alone(&mut out, '<', Span::Source(2));
    push_joint(&mut out, '-', Span::Source(3));
    push_group(&mut out, Delimiter::Brace, vec![word("x")], Span::Source(4));
    push_tree(&mut out, TokenTree::literal("1", HERE));
    push_name(&mut out, &name("f", 5));
    emit_arrow(&mut out);
    assert_eq!(
        out,
        vec![
            word("a"),
            word_at("impl", 1),
            TokenTree::punct('<', Spacing::Alone, Span::Source(2)),
            TokenTree::punct('-', Spacing::Joint, Span::Source(3)),
            TokenTree::group(Delimiter::Brace, vec![word("x")], Span::Source(4)),
            TokenTree::literal("1", HERE),
            word_at("f", 5),
            joint('-'),
            alone('>'),
        ]
    );
}

#[test]
fn annotations_are_written_at_the_span_of_their_brackets() {
    let mut out = vec![word("a")];
    emit_annotations(&mut out, &vec![]);
    assert_eq!(out, vec![word("a")]);
    let notes = vec![
        Annotation { meta: vec![word_at("inline", 1)], bracket: Span::Source(2) },
        Annotation { meta: vec![], bracket: Span::Source(3) },
    ];
    emit_annotations(&mut out, &notes);
    assert_eq!(
        out,
        vec![
            word("a"),
            TokenTree::punct('#', Spacing::Alone, Span::Source(2)),
            TokenTree::group(Delimiter::Bracket, vec![word_at("inline", 1)], Span::Source(2)),
            TokenTree::punct('#', Spacing::Alone, Span::Source(3)),
            TokenTree::group(Delimiter::Bracket, vec![], Span::Source(3)),
        ]
    );
}

#[test]
fn a_return_type_that_is_left_out_is_the_empty_tuple() {
    let mut out = vec![word("a")];
    emit_return_type(&mut out, &plain());
    assert_eq!(out, vec![word("a"), TokenTree::group(Delimiter::Parenthesis, vec![], Span::Source(4))]);
    let mut out = vec![word("a")];
    emit_return_type(&mut out, &sample());
    assert_eq!(out, vec![word("a"), word_at("f32", 9)]);
    let mut def = plain();
    def.ret = Some(vec![alone('&'), joint('\''), word("a"), word("str")]);
    let mut out = vec![];
    emit_return_type(&mut out, &def);
    assert_eq!(out, vec![alone('&'), joint('\''), word("a"), word("str")]);
    // An empty tuple that is written is kept as it is written.
    def.ret = Some(vec![TokenTree::group(Delimiter::Parenthesis, vec![], Span::Source(77))]);
    let mut out = vec![];
    emit_return_type(&mut out, &def);
    assert_eq!(out, vec![TokenTree::group(Delimiter::Parenthesis, vec![], Span::Source(77))]);
}

#[test]
fn optional_parts_are_written_where_they_are() {
    let mut out = vec![word("a")];
    emit_optional(&mut out, &None);
    emit_constraint(&mut out, &None);
    assert_eq!(out, vec![word("a")]);
    emit_optional(&mut out, &sample().gen);
    emit_constraint(&mut out, &sample().w_clause);
    assert_eq!(
        out,
        vec![
            word("a"),
            alone('<'),
            word_at("T", 3),
            alone('>'),
            word_at("where", 10),
            word("T"),
            alone(':'),
            word("Copy"),
        ]
    );
    let mut out = vec![];
    emit_constraint(&mut out, &Some(WhereClause { keyword: Span::Source(1), predicates: vec![] }));
    assert_eq!(out, vec![word_at("where", 1)]);
}

#[test]
fn a_body_is_wrapped_in_braces_of_its_own() {
    let mut out = vec![word("a")];
    emit_wrapped_body(&mut out, &sample());
    assert_eq!(
        out,
        vec![
            word("a"),
            braces(vec![TokenTree::group(Delimiter::Brace, vec![word_at("x", 11)], Span::Source(12))]),
        ]
    );
}

#[test]
fn tuples_have_a_comma_behind_every_part() {
    assert_eq!(type_tuple(&vec![]), parens(vec![]));
    assert_eq!(pattern_tuple(&vec![]), parens(vec![]));
    let def = sample();
    assert_eq!(
        type_tuple(&def.params),
        parens(vec![word_at("usize", 6), alone(','), alone('&'), word_at("str", 8), alone(',')])
    );
    assert_eq!(
        pattern_tuple(&def.params),
        parens(vec![
            word_at("x", 5),
            alone(','),
            TokenTree::group(
                Delimiter::Parenthesis,
                vec![word("a"), alone(','), word("b")],
                Span::Source(7)
            ),
            alone(','),
        ])
    );
}

fn output() -> Vec<TokenTree> {
    vec![joint('-'), alone('>'), word("Self"), joint(':'), alone(':'), word("Output")]
}

fn method(name: &str) -> Vec<TokenTree> {
    vec![word("extern"), TokenTree::literal("\"rust-call\"", HERE), word("fn"), word(name)]
}

fn forwarding() -> TokenTree {
    braces(vec![word("self"), alone('.'), word("call"), parens(vec![word("x")])])
}

fn note() -> Vec<TokenTree> {
    vec![
        TokenTree::punct('#', Spacing::Alone, Span::Source(2)),
        TokenTree::group(Delimiter::Bracket, vec![word_at("inline", 1)], Span::Source(2)),
    ]
}

fn join(parts: Vec<Vec<TokenTree>>) -> Vec<TokenTree> {
    parts.into_iter().flatten().collect()
}

#[test]
fn the_three_implementations_hold_what_they_should() {
    let def = sample();
    let types = || type_tuple(&sample().params);
    assert_eq!(
        fn_items(&def),
        join(vec![
            note(),
            method("call"),
            vec![parens(vec![
                alone('&'),
                word("self"),
                alone(','),
                pattern_tuple(&def.params),
                alone(':'),
                types(),
            ])],
            output(),
            vec![braces(vec![TokenTree::group(Delimiter::Brace, vec![word_at("x", 11)], Span::Source(12))])],
        ])
    );
    assert_eq!(
        fn_once_items(&def),
        join(vec![
            vec![word("type"), word("Output"), alone('='), word_at("f32", 9), alone(';')],
            note(),
            method("call_once"),
            vec![parens(vec![word("self"), alone(','), word("x"), alone(':'), types()])],
            output(),
            vec![forwarding()],
        ])
    );
    assert_eq!(
        fn_mut_items(&def),
        join(vec![
            note(),
            method("call_mut"),
            vec![parens(vec![
                alone('&'),
                word("mut"),
                word("self"),
                alone(','),
                word("x"),
                alone(':'),
                types(),
            ])],
            output(),
            vec![forwarding()],
        ])
    );
}

fn head(protocol: &str) -> Vec<TokenTree> {
    vec![
        word("impl"),
        alone('<'),
        word_at("T", 3),
        alone('>'),
        word(protocol),
        alone('<'),
        type_tuple(&sample().params),
        alone('>'),
        word("for"),
        word_at("f", 20),
        word_at("where", 10),
        word("T"),
        alone(':'),
        word("Copy"),
    ]
}

#[test]
fn every_signature_gets_the_three_implementations() {
    let def = sample();
    let f = name("f", 20);
    let three = join(vec![
        head("Fn"),
        vec![braces(fn_items(&def))],
        head("FnOnce"),
        vec![braces(fn_once_items(&def))],
        head("FnMut"),
        vec![braces(fn_mut_items(&def))],
    ]);
    let mut out = vec![word("a")];
    emit_free_impls(&mut out, &def, &f);
    assert_eq!(out, join(vec![vec![word("a")], copy_all(&three)]));
    assert_eq!(gen_fn_decls(&vec![], &f), Ok(vec![]));
    assert_eq!(gen_fn_decls(&vec![sample()], &f), Ok(copy_all(&three)));
    let mut twice = copy_all(&three);
    emit_free_impls(&mut twice, &plain(), &f);
    assert_eq!(gen_fn_decls(&vec![sample(), plain()], &f), Ok(twice));
    assert_eq!(gen_fn_decls(&vec![sample(), plain(), sample()], &f).map(|out| out.len()), Ok(45 + 24 + 45));
}

#[test]
fn a_signature_with_self_is_refused_where_it_stands_first() {
    let receiver = |at| Err(ExpandError { kind: ErrorKind::ReceiverNotAllowed, span: Span::Source(at) });
    let with_self = |paren| {
        let mut def = plain();
        def.paren = Span::Source(paren);
        def.this = Some(ThisDef::Implicit { reference: None, mutability: None, this: HERE, comma: None });
        def
    };
    let typed = |paren| {
        let mut def = plain();
        def.paren = Span::Source(paren);
        def.this = Some(ThisDef::Explicit {
            mutability: None,
            this: HERE,
            colon: Mark { spacing: Spacing::Alone, span: HERE },
            ty: vec![word("Self")],
            comma: None,
        });
        def
    };
    let f = name("f", 20);
    assert_eq!(gen_fn_decls(&vec![with_self(30)], &f), receiver(30));
    assert_eq!(gen_fn_decls(&vec![typed(30)], &f), receiver(30));
    assert_eq!(gen_fn_decls(&vec![plain(), with_self(31), typed(32)], &f), receiver(31));
    assert_eq!(gen_fn_decls(&vec![plain(), sample(), typed(32), with_self(31)], &f), receiver(32));
    assert!(gen_fn_decls(&vec![plain(), sample()], &f).is_ok());
}

#[test]
fn the_marker_type_has_the_declared_name() {
    let mut out = vec![];
    emit_marker(&mut out, &vec![word_at("pub", 1)], &name("my_func", 2));
    let span = Span::Source(2);
    let hidden = |first: &str, second: &str| {
        vec![
            TokenTree::punct('#', Spacing::Alone, span),
            TokenTree::group(
                Delimiter::Bracket,
                vec![
                    TokenTree::ident(first, span),
                    TokenTree::group(Delimiter::Parenthesis, vec![TokenTree::ident(second, span)], span),
                ],
                span,
            ),
        ]
    };
    assert_eq!(
        out,
        join(vec![
            hidden("doc", "hidden"),
            hidden("allow", "non_camel_case_types"),
            hidden("allow", "dead_code"),
            vec![
                word_at("pub", 1),
                TokenTree::ident("struct", span),
                TokenTree::ident("my_func", span),
                TokenTree::punct(';', Spacing::Alone, span),
            ],
        ])
    );
}

fn spanned(ch: char, at: usize) -> TokenTree {
    TokenTree::punct(ch, Spacing::Alone, Span::Source(at))
}

fn mark(at: usize) -> Mark {
    Mark { spacing: Spacing::Alone, span: Span::Source(at) }
}

#[test]
fn self_is_written_as_it_was_read() {
    let mut out = vec![word("a")];
    ThisDef::Implicit { reference: None, mutability: None, this: Span::Source(1), comma: None }
        .to_tokens(&mut out);
    assert_eq!(out, vec![word("a"), word_at("self", 1)]);
    let mut out = vec![];
    ThisDef::Implicit {
        reference: Some(Mark { spacing: Spacing::Joint, span: Span::Source(1) }),
        mutability: Some(Span::Source(2)),
        this: Span::Source(3),
        comma: Some(mark(4)),
    }
    .to_tokens(&mut out);
    assert_eq!(
        out,
        vec![
            TokenTree::punct('&', Spacing::Joint, Span::Source(1)),
            word_at("mut", 2),
            word_at("self", 3),
            spanned(',', 4),
        ]
    );
    let mut out = vec![];
    ThisDef::Explicit {
        mutability: Some(Span::Source(1)),
        this: Span::Source(2),
        colon: mark(3),
        ty: vec![word("Box"), alone('<'), word("Self"), alone('>')],
        comma: Some(Mark { spacing: Spacing::Joint, span: Span::Source(4) }),
    }
    .to_tokens(&mut out);
    assert_eq!(
        out,
        vec![
            word_at("mut", 1),
            word_at("self", 2),
            spanned(':', 3),
            word("Box"),
            alone('<'),
            word("Self"),
            alone('>'),
            TokenTree::punct(',', Spacing::Joint, Span::Source(4)),
        ]
    );
    let mut out = vec![];
    ThisDef::Explicit {
        mutability: None,
        this: Span::Source(2),
        colon: mark(3),
        ty: vec![word("Self")],
        comma: None,
    }
    .to_tokens(&mut out);
    assert_eq!(out, vec![word_at("self", 2), spanned(':', 3), word("Self")]);
}

#[test]
fn punctuation_is_found_as_it_was_written() {
    let tokens = vec![joint(':'), alone(':'), word("x"), TokenTree::punct(',', Spacing::Joint, Span::Source(7))];
    assert_eq!(punct_mark(&tokens, 0, ':'), Some(Mark { spacing: Spacing::Joint, span: HERE }));
    assert_eq!(punct_mark(&tokens, 1, ':'), Some(Mark { spacing: Spacing::Alone, span: HERE }));
    assert_eq!(punct_mark(&tokens, 3, ','), Some(Mark { spacing: Spacing::Joint, span: Span::Source(7) }));
    assert_eq!(punct_mark(&tokens, 0, ','), None);
    assert_eq!(punct_mark(&tokens, 2, 'x'), None);
    assert_eq!(punct_mark(&tokens, 4, ','), None);
}

#[test]
fn parameters_are_named_or_numbered() {
    let def = sample();
    let mut out = vec![word("a")];
    emit_trait_params(&mut out, &vec![]);
    emit_impl_params(&mut out, &vec![]);
    assert_eq!(out, vec![word("a")]);
    emit_trait_params(&mut out, &def.params);
    assert_eq!(
        out,
        vec![
            word("a"),
            word_at("_0", 5),
            alone(':'),
            word_at("usize", 6),
            alone(','),
            word_at("_1", 7),
            alone(':'),
            alone('&'),
            word_at("str", 8),
        ]
    );
    let mut out = vec![];
    emit_impl_params(&mut out, &def.params);
    assert_eq!(
        out,
        vec![
            word_at("x", 5),
            alone(':'),
            word_at("usize", 6),
            alone(','),
            TokenTree::group(
                Delimiter::Parenthesis,
                vec![word("a"), alone(','), word("b")],
                Span::Source(7)
            ),
            alone(':'),
            alone('&'),
            word_at("str", 8),
        ]
    );
    // A pattern without tokens has no place of its own.
    let mut out = vec![];
    emit_trait_params(&mut out, &vec![Param { pattern: vec![], ty: vec![word("u8")] }]);
    assert_eq!(out, vec![word("_0"), alone(':'), word("u8")]);
}

#[test]
fn every_signature_gets_a_trait_and_its_implementation() {
    let mut def = sample();
    def.this = Some(ThisDef::Implicit {
        reference: None,
        mutability: None,
        this: Span::Source(30),
        comma: Some(Mark { spacing: Spacing::Alone, span: Span::Source(31) }),
    });
    let vis = vec![word_at("pub", 40)];
    let owner = name("Foo", 41);
    let f = name("get", 42);
    let signature = |params: Vec<TokenTree>| {
        join(vec![
            vec![word("fn"), word_at("get", 42), alone('<'), word_at("T", 3), alone('>')],
            vec![parens(join(vec![vec![word_at("self", 30), spanned(',', 31)], params]))],
            vec![joint('-'), alone('>'), word_at("f32", 9)],
            vec![word_at("where", 10), word("T"), alone(':'), word("Copy")],
        ])
    };
    let mut declared = vec![];
    emit_trait_params(&mut declared, &def.params);
    let mut defined = vec![];
    emit_impl_params(&mut defined, &def.params);
    let expected = vec![
        word_at("pub", 40),
        word("trait"),
        word_at("FooTrait3", 41),
        alone(':'),
        word("Sized"),
        braces(join(vec![signature(declared), vec![alone(';')]])),
        word("impl"),
        word_at("FooTrait3", 41),
        word("for"),
        word_at("Foo", 41),
        braces(join(vec![
            note(),
            signature(defined),
            vec![braces(vec![TokenTree::group(Delimiter::Brace, vec![word_at("x", 11)], Span::Source(12))])],
        ])),
    ];
    let mut out = vec![];
    emit_member_items(&mut out, &vis, &owner, &f, &def, 3);
    assert_eq!(out, expected);

    // Without `self` by value the trait asks for nothing.
    let mut out = vec![];
    emit_member_items(&mut out, &vec![], &owner, &f, &plain(), 0);
    let unit = || TokenTree::group(Delimiter::Parenthesis, vec![], Span::Source(4));
    assert_eq!(
        out,
        vec![
            word("trait"),
            word_at("FooTrait0", 41),
            alone(':'),
            braces(vec![word("fn"), word_at("get", 42), parens(vec![]), joint('-'), alone('>'), unit(), alone(';')]),
            word("impl"),
            word_at("FooTrait0", 41),
            word("for"),
            word_at("Foo", 41),
            braces(vec![
                word("fn"),
                word_at("get", 42),
                parens(vec![]),
                joint('-'),
                alone('>'),
                unit(),
                braces(vec![TokenTree::group(Delimiter::Brace, vec![], Span::Source(12))]),
            ]),
        ]
    );

    assert_eq!(gen_trait_fn_decls(&vec![], &f, &owner, &vis), Ok(vec![]));
    let mut all = vec![];
    emit_member_items(&mut all, &vis, &owner, &f, &plain(), 0);
    emit_member_items(&mut all, &vis, &owner, &f, &def, 1);
    emit_member_items(&mut all, &vis, &owner, &f, &plain(), 2);
    let fns = vec![plain(), def, plain()];
    assert_eq!(gen_trait_fn_decls(&fns, &f, &owner, &vis), Ok(all));
}
