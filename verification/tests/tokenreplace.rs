use hamerkop::tokenreplace::{replace_tokens, Delimiter, Token};

fn ident(name: &str, leaf: usize) -> Token {
    Token::Ident { name: name.to_string(), leaf }
}

fn describe(tokens: &[Token]) -> Vec<String> {
    tokens
        .iter()
        .map(|t| match t {
            Token::Open(d) => format!("open {:?}", d),
            Token::Close(d) => format!("close {:?}", d),
            Token::Ident { name, leaf } => format!("{}#{}", name, leaf),
            Token::Leaf(l) => format!("leaf {}", l),
        })
        .collect()
}

#[test]
fn replaces_identifiers_at_every_depth() {
    // fn a(dummy: &mut Dummy) { dummy.a = 0; }
    let input = vec![
        ident("fn", 0),
        ident("a", 1),
        Token::Open(Delimiter::Parenthesis),
        ident("dummy", 2),
        Token::Leaf(3),
        Token::Close(Delimiter::Parenthesis),
        Token::Open(Delimiter::Brace),
        ident("dummy", 4),
        Token::Leaf(5),
        ident("a", 6),
        Token::Leaf(7),
        Token::Close(Delimiter::Brace),
    ];
    let replacement = vec![ident("b", 9)];
    let out = replace_tokens(&"a".to_string(), &replacement, &input);
    assert_eq!(
        describe(&out),
        vec![
            "fn#0", "b#9", "open Parenthesis", "dummy#2", "leaf 3", "close Parenthesis",
            "open Brace", "dummy#4", "leaf 5", "b#9", "leaf 7", "close Brace",
        ]
    );
}

#[test]
fn replacement_may_be_several_tokens_or_none() {
    let input = vec![ident("linkme", 0), Token::Leaf(1), ident("x", 2)];
    let path = vec![ident("example", 5), Token::Leaf(6), ident("linkme", 7)];
    let out = replace_tokens(&"linkme".to_string(), &path, &input);
    assert_eq!(describe(&out), vec!["example#5", "leaf 6", "linkme#7", "leaf 1", "x#2"]);

    let out = replace_tokens(&"x".to_string(), &Vec::new(), &input);
    assert_eq!(describe(&out), vec!["linkme#0", "leaf 1"]);
}

#[test]
fn nothing_to_replace_keeps_stream() {
    let input = vec![Token::Open(Delimiter::Bracket), ident("y", 0), Token::Close(Delimiter::Bracket)];
    let out = replace_tokens(&"z".to_string(), &vec![ident("q", 1)], &input);
    assert_eq!(describe(&out), describe(&input));
}
