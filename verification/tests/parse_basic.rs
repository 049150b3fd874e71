use webidl::Parser;
use webidl::ParseError;
use webidl::ast::Definition;
use webidl::ast::ExtendedAttribute;
use webidl::ast::Interface;
use webidl::lexer::Punct;
use webidl::lexer::Token;
use webidl::parser::SyntaxError;

#[test]
fn empty_input_parses_to_no_definitions() {
    let parser = Parser::new();
    assert_eq!(parser.parse_string(""), Ok(vec![]));
}

#[test]
fn whitespace_and_comments_parse_to_no_definitions() {
    let parser = Parser::new();
    assert_eq!(parser.parse_string("  \t\r\n  "), Ok(vec![]));
    assert_eq!(parser.parse_string("// line comment\n/* block\ncomment */\n"), Ok(vec![]));
}

#[test]
fn single_interface_with_attribute() {
    let parser = Parser::new();
    let result = parser.parse_string("[Attribute] interface Node { };");
    let expected = vec![Definition::Interface(Interface {
        extended_attributes: vec![ExtendedAttribute::NoArguments("Attribute".to_string())],
        partial: false,
        name: "Node".to_string(),
        inherits: None,
        members: vec![],
    })];
    assert_eq!(result, Ok(expected));
}

#[test]
fn interface_with_inheritance() {
    let parser = Parser::new();
    let result = parser.parse_string("interface A : B { };");
    let expected = vec![Definition::Interface(Interface {
        extended_attributes: vec![],
        partial: false,
        name: "A".to_string(),
        inherits: Some("B".to_string()),
        members: vec![],
    })];
    assert_eq!(result, Ok(expected));
}

#[test]
fn parsing_is_deterministic_on_success() {
    let parser = Parser::new();
    let text = "[A, B=C] partial interface W { readonly attribute long x; };";
    let first = parser.parse_string(text);
    let second = parser.parse_string(text);
    assert!(first.is_ok());
    assert_eq!(first, second);
}

#[test]
fn parsing_is_deterministic_on_failure() {
    let parser = Parser::new();
    let text = "interface { };";
    let first = parser.parse_string(text);
    let second = parser.parse_string(text);
    assert!(first.is_err());
    assert_eq!(first, second);
}

#[test]
fn extended_attribute_order_is_source_order() {
    let parser = Parser::new();
    let result = parser.parse_string("[First, Second, Third] interface X { };");
    match result {
        Ok(defs) => match &defs[0] {
            Definition::Interface(i) => {
                assert_eq!(
                    i.extended_attributes,
                    vec![
                        ExtendedAttribute::NoArguments("First".to_string()),
                        ExtendedAttribute::NoArguments("Second".to_string()),
                        ExtendedAttribute::NoArguments("Third".to_string()),
                    ]
                );
            },
            other => panic!("expected an interface, got {:?}", other),
        },
        Err(e) => panic!("parse failed: {:?}", e),
    }
}

#[test]
fn identifier_with_rhs_attribute() {
    let parser = Parser::new();
    let result = parser.parse_string("[PutForwards=name] interface Y { };");
    match result {
        Ok(defs) => match &defs[0] {
            Definition::Interface(i) => {
                assert_eq!(
                    i.extended_attributes,
                    vec![ExtendedAttribute::IdentifierWithRhs {
                        lhs: "PutForwards".to_string(),
                        rhs: "name".to_string(),
                    }]
                );
            },
            other => panic!("expected an interface, got {:?}", other),
        },
        Err(e) => panic!("parse failed: {:?}", e),
    }
}

#[test]
fn other_attribute_keeps_its_token_run() {
    let parser = Parser::new();
    let result = parser.parse_string("[X=(a,b)] interface Z { };");
    match result {
        Ok(defs) => match &defs[0] {
            Definition::Interface(i) => {
                assert_eq!(
                    i.extended_attributes,
                    vec![ExtendedAttribute::Other(vec![
                        Token::Identifier("X".to_string()),
                        Token::Punct(Punct::Equals),
                        Token::Punct(Punct::LeftParen),
                        Token::Identifier("a".to_string()),
                        Token::Punct(Punct::Comma),
                        Token::Identifier("b".to_string()),
                        Token::Punct(Punct::RightParen),
                    ])]
                );
            },
            other => panic!("expected an interface, got {:?}", other),
        },
        Err(e) => panic!("parse failed: {:?}", e),
    }
}

#[test]
fn syntax_error_reports_offending_token_and_position() {
    let parser = Parser::new();
    let result = parser.parse_string("interface;");
    assert_eq!(
        result,
        Err(ParseError::Syntax(SyntaxError {
            position: 9,
            found: Some(Token::Punct(Punct::Semicolon)),
        }))
    );
}

#[test]
fn syntax_error_at_end_of_input_has_no_token() {
    let parser = Parser::new();
    let result = parser.parse_string("interface A");
    assert_eq!(
        result,
        Err(ParseError::Syntax(SyntaxError { position: 11, found: None }))
    );
}

#[test]
fn empty_attribute_list_is_rejected() {
    let parser = Parser::new();
    let result = parser.parse_string("[] interface A { };");
    assert!(matches!(result, Err(ParseError::Syntax(_))));
}

#[test]
fn leading_underscore_escape_is_stripped() {
    let parser = Parser::new();
    let result = parser.parse_string("interface _interface { };");
    match result {
        Ok(defs) => match &defs[0] {
            Definition::Interface(i) => assert_eq!(i.name, "interface"),
            other => panic!("expected an interface, got {:?}", other),
        },
        Err(e) => panic!("parse failed: {:?}", e),
    }
}
