use webidl::lexer::lex;
use webidl::lexer::Keyword;
use webidl::lexer::LexicalError;
use webidl::lexer::PosToken;
use webidl::lexer::Punct;
use webidl::lexer::Token;

#[test]
fn lex_keywords_identifiers_and_spans() {
    let toks = lex("interface Foo").unwrap();
    assert_eq!(
        toks,
        vec![
            PosToken { token: Token::Keyword(Keyword::Interface), start: 0, end: 9 },
            PosToken { token: Token::Identifier("Foo".to_string()), start: 10, end: 13 },
        ]
    );
}

#[test]
fn lex_numeric_literals_keep_their_lexemes() {
    let toks = lex("0x1F 017 -2.5e-3 1.").unwrap();
    assert_eq!(
        toks,
        vec![
            PosToken { token: Token::IntegerLiteral("0x1F".to_string()), start: 0, end: 4 },
            PosToken { token: Token::IntegerLiteral("017".to_string()), start: 5, end: 8 },
            PosToken { token: Token::FloatLiteral("-2.5e-3".to_string()), start: 9, end: 16 },
            PosToken { token: Token::FloatLiteral("1.".to_string()), start: 17, end: 19 },
        ]
    );
}

#[test]
fn lex_digits_then_bare_e_is_not_a_float() {
    let toks = lex("1e").unwrap();
    assert_eq!(
        toks,
        vec![
            PosToken { token: Token::IntegerLiteral("1".to_string()), start: 0, end: 1 },
            PosToken { token: Token::Identifier("e".to_string()), start: 1, end: 2 },
        ]
    );
}

#[test]
fn lex_string_literal_body() {
    let toks = lex("\"hi there\"").unwrap();
    assert_eq!(
        toks,
        vec![PosToken { token: Token::StringLiteral("hi there".to_string()), start: 0, end: 10 }]
    );
}

#[test]
fn lex_punctuation() {
    let toks = lex("{}();:,=<>?[]").unwrap();
    let kinds: Vec<Token> = toks.into_iter().map(|t| t.token).collect();
    assert_eq!(
        kinds,
        vec![
            Token::Punct(Punct::LeftBrace),
            Token::Punct(Punct::RightBrace),
            Token::Punct(Punct::LeftParen),
            Token::Punct(Punct::RightParen),
            Token::Punct(Punct::Semicolon),
            Token::Punct(Punct::Colon),
            Token::Punct(Punct::Comma),
            Token::Punct(Punct::Equals),
            Token::Punct(Punct::LessThan),
            Token::Punct(Punct::GreaterThan),
            Token::Punct(Punct::QuestionMark),
            Token::Punct(Punct::LeftBracket),
            Token::Punct(Punct::RightBracket),
        ]
    );
}

#[test]
fn lex_escaped_keyword_is_an_identifier() {
    let toks = lex("_Promise").unwrap();
    assert_eq!(
        toks,
        vec![PosToken { token: Token::Identifier("Promise".to_string()), start: 0, end: 8 }]
    );
}

#[test]
fn lex_invalid_character_fails_with_position() {
    let err = lex("interface @").unwrap_err();
    assert_eq!(err, LexicalError { position: 10, offending: "@".to_string() });
}

#[test]
fn lex_unterminated_block_comment_fails() {
    let err = lex("interface A /* never closed").unwrap_err();
    assert_eq!(err, LexicalError { position: 12, offending: "/*".to_string() });
}

#[test]
fn lex_unterminated_string_literal_fails() {
    let err = lex("\"no closing quote").unwrap_err();
    assert_eq!(err, LexicalError { position: 0, offending: "\"".to_string() });
}

#[test]
fn lex_bare_minus_fails() {
    let err = lex("-x").unwrap_err();
    assert_eq!(err, LexicalError { position: 0, offending: "-".to_string() });
}

#[test]
fn lex_comments_produce_no_tokens() {
    assert_eq!(lex("// all comment").unwrap(), vec![]);
    assert_eq!(lex("/* a */ /* b */").unwrap(), vec![]);
}
