//! The pass that renames the receiver, on bodies written out by hand.

use no_panic::rebind::{
    clone_nodes, contains_fn, rebind, rebind_arguments, rebind_path, rename_receiver, Syntax,
};
use no_panic::token::{Delimiter, Token};

fn ident(name: &str) -> Token {
    Token::Ident(name.to_string())
}

fn punct(c: char) -> Token {
    Token::Punct(c, false)
}

fn braces(inner: Vec<Token>) -> Token {
    Token::Group(Delimiter::Brace, inner)
}

fn parens(inner: Vec<Token>) -> Token {
    Token::Group(Delimiter::Parenthesis, inner)
}

#[test]
fn fn_is_found_at_any_depth() {
    assert!(!contains_fn(&vec![]));
    assert!(!contains_fn(&vec![ident("self"), punct('.'), ident("data")]));
    assert!(contains_fn(&vec![ident("fn")]));
    assert!(contains_fn(&vec![ident("a"), braces(vec![parens(vec![ident("fn")])])]));
    assert!(!contains_fn(&vec![ident("fnord"), Token::Literal("\"fn\"".to_string())]));
    assert!(!contains_fn(&vec![Token::Str("fn".to_string())]));
}

#[test]
fn self_is_renamed_at_any_depth() {
    assert_eq!(
        rename_receiver(&vec![
            ident("self"),
            punct('.'),
            ident("f"),
            parens(vec![ident("self"), braces(vec![ident("self")])]),
        ]),
        vec![
            ident("__self"),
            punct('.'),
            ident("f"),
            parens(vec![ident("__self"), braces(vec![ident("__self")])]),
        ]
    );
}

#[test]
fn only_the_identifier_self_is_renamed() {
    let tokens = vec![
        ident("Self"),
        ident("selfish"),
        ident("__self"),
        Token::Literal("\"self\"".to_string()),
        Token::Str("self".to_string()),
        Token::Punct(':', true),
    ];
    assert_eq!(rename_receiver(&tokens), tokens);
}

#[test]
fn arguments_with_fn_are_kept_and_others_renamed() {
    let with_fn = vec![braces(vec![ident("fn"), ident("f"), parens(vec![ident("self")])])];
    assert_eq!(rebind_arguments(&with_fn), with_fn);
    assert_eq!(
        rebind_arguments(&vec![ident("self"), punct('.'), ident("data")]),
        vec![ident("__self"), punct('.'), ident("data")]
    );
}

fn body() -> Vec<Syntax> {
    vec![
        Syntax::Path(vec![ident("self")]),
        Syntax::Token(punct('.')),
        Syntax::Token(ident("self")),
        Syntax::Group(Delimiter::Parenthesis, vec![Syntax::Path(vec![ident("self")])]),
        Syntax::Token(ident("m")),
        Syntax::Token(punct('!')),
        Syntax::Macro(Delimiter::Bracket, vec![ident("self")]),
        Syntax::Item(vec![
            Syntax::Token(ident("impl")),
            Syntax::Group(
                Delimiter::Brace,
                vec![Syntax::Path(vec![ident("self")]), Syntax::Macro(Delimiter::Parenthesis, vec![ident("self")])],
            ),
        ]),
        Syntax::Macro(Delimiter::Brace, vec![ident("fn"), ident("self")]),
    ]
}

#[test]
fn with_a_receiver_its_uses_are_renamed_outside_items() {
    assert_eq!(
        rebind(&body(), true),
        vec![
            ident("__self"),
            punct('.'),
            ident("self"),
            parens(vec![ident("__self")]),
            ident("m"),
            punct('!'),
            Token::Group(Delimiter::Bracket, vec![ident("__self")]),
            ident("impl"),
            braces(vec![ident("self"), parens(vec![ident("self")])]),
            braces(vec![ident("fn"), ident("self")]),
        ]
    );
}

#[test]
fn without_a_receiver_nothing_is_renamed() {
    assert_eq!(
        rebind(&body(), false),
        vec![
            ident("self"),
            punct('.'),
            ident("self"),
            parens(vec![ident("self")]),
            ident("m"),
            punct('!'),
            Token::Group(Delimiter::Bracket, vec![ident("self")]),
            ident("impl"),
            braces(vec![ident("self"), parens(vec![ident("self")])]),
            braces(vec![ident("fn"), ident("self")]),
        ]
    );
}

#[test]
fn a_path_is_renamed_only_where_it_is_self_alone() {
    let longer = vec![ident("self"), Token::Punct(':', true), punct(':'), ident("f")];
    assert_eq!(rebind_path(&vec![ident("self")], true), vec![ident("__self")]);
    assert_eq!(rebind_path(&vec![ident("self")], false), vec![ident("self")]);
    assert_eq!(rebind_path(&longer, true), longer);
    assert_eq!(rebind_path(&vec![ident("this")], true), vec![ident("this")]);
    assert_eq!(rebind_path(&vec![ident("Self")], true), vec![ident("Self")]);
    assert_eq!(rebind_path(&vec![], true), vec![]);
    assert_eq!(
        rebind(&vec![Syntax::Path(longer.clone()), Syntax::Path(vec![ident("x")])], true),
        vec![ident("self"), Token::Punct(':', true), punct(':'), ident("f"), ident("x")]
    );
}

#[test]
fn a_copy_of_a_body_equals_the_body() {
    assert_eq!(clone_nodes(&body()), body());
    assert_eq!(body()[7].clone(), body()[7]);
}

#[test]
fn an_empty_body_has_no_tokens() {
    assert_eq!(rebind(&vec![], true), vec![]);
    assert_eq!(rebind(&vec![Syntax::Item(vec![])], true), vec![]);
}
