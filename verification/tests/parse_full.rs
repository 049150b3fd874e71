use webidl::Parser;
use webidl::ParseError;
use webidl::ast::Argument;
use webidl::ast::Attribute;
use webidl::ast::Callback;
use webidl::ast::Const;
use webidl::ast::ConstValue;
use webidl::ast::Definition;
use webidl::ast::Dictionary;
use webidl::ast::Enum;
use webidl::ast::ExtendedAttribute;
use webidl::ast::Field;
use webidl::ast::ImplementsStatement;
use webidl::ast::IncludesStatement;
use webidl::ast::Interface;
use webidl::ast::Member;
use webidl::ast::Namespace;
use webidl::ast::Operation;
use webidl::ast::Primitive;
use webidl::ast::Type;
use webidl::ast::Typedef;
use webidl::lexer::LexicalError;

#[test]
fn full_document_parses_to_expected_tree() {
    let text = "\
        enum Mode { \"on\", \"off\", };\n\
        typedef sequence<long> IntList;\n\
        callback Handler = void (DOMString message);\n\
        partial namespace Console { void log(DOMString text); };\n\
        dictionary Options : Base {\n\
            required DOMString name;\n\
            unsigned long long size = 0;\n\
            any extra;\n\
        };\n\
        interface Widget : Node {\n\
            const short LIMIT = -5;\n\
            readonly attribute DOMString? title;\n\
            Promise<void> update((long or FrozenArray<double>)? value);\n\
        };\n\
        A implements B;\n\
        C includes D;\n";
    let parser = Parser::new();
    let result = parser.parse_string(text);
    let expected = vec![
        Definition::Enum(Enum {
            extended_attributes: vec![],
            name: "Mode".to_string(),
            values: vec!["on".to_string(), "off".to_string()],
        }),
        Definition::Typedef(Typedef {
            extended_attributes: vec![],
            ty: Type::Sequence(Box::new(Type::Primitive(Primitive::Long))),
            name: "IntList".to_string(),
        }),
        Definition::Callback(Callback {
            extended_attributes: vec![],
            name: "Handler".to_string(),
            return_type: Type::Primitive(Primitive::Void),
            arguments: vec![Argument {
                ty: Type::Primitive(Primitive::DOMString),
                name: "message".to_string(),
            }],
        }),
        Definition::Namespace(Namespace {
            extended_attributes: vec![],
            partial: true,
            name: "Console".to_string(),
            members: vec![Member::Operation(Operation {
                extended_attributes: vec![],
                return_type: Type::Primitive(Primitive::Void),
                name: "log".to_string(),
                arguments: vec![Argument {
                    ty: Type::Primitive(Primitive::DOMString),
                    name: "text".to_string(),
                }],
            })],
        }),
        Definition::Dictionary(Dictionary {
            extended_attributes: vec![],
            partial: false,
            name: "Options".to_string(),
            inherits: Some("Base".to_string()),
            members: vec![
                Member::Field(Field {
                    extended_attributes: vec![],
                    required: true,
                    ty: Type::Primitive(Primitive::DOMString),
                    name: "name".to_string(),
                    default: None,
                }),
                Member::Field(Field {
                    extended_attributes: vec![],
                    required: false,
                    ty: Type::Primitive(Primitive::UnsignedLongLong),
                    name: "size".to_string(),
                    default: Some(ConstValue::Integer("0".to_string())),
                }),
                Member::Field(Field {
                    extended_attributes: vec![],
                    required: false,
                    ty: Type::Primitive(Primitive::Any),
                    name: "extra".to_string(),
                    default: None,
                }),
            ],
        }),
        Definition::Interface(Interface {
            extended_attributes: vec![],
            partial: false,
            name: "Widget".to_string(),
            inherits: Some("Node".to_string()),
            members: vec![
                Member::Const(Const {
                    extended_attributes: vec![],
                    ty: Type::Primitive(Primitive::Short),
                    name: "LIMIT".to_string(),
                    value: ConstValue::Integer("-5".to_string()),
                }),
                Member::Attribute(Attribute {
                    extended_attributes: vec![],
                    readonly: true,
                    ty: Type::Nullable(Box::new(Type::Primitive(Primitive::DOMString))),
                    name: "title".to_string(),
                }),
                Member::Operation(Operation {
                    extended_attributes: vec![],
                    return_type: Type::Promise(Box::new(Type::Primitive(Primitive::Void))),
                    name: "update".to_string(),
                    arguments: vec![Argument {
                        ty: Type::Nullable(Box::new(Type::Union(vec![
                            Type::Primitive(Primitive::Long),
                            Type::FrozenArray(Box::new(Type::Primitive(Primitive::Double))),
                        ]))),
                        name: "value".to_string(),
                    }],
                }),
            ],
        }),
        Definition::Implements(ImplementsStatement {
            extended_attributes: vec![],
            implementor: "A".to_string(),
            implemented: "B".to_string(),
        }),
        Definition::Includes(IncludesStatement {
            extended_attributes: vec![],
            includer: "C".to_string(),
            included: "D".to_string(),
        }),
    ];
    assert_eq!(result, Ok(expected));
}

#[test]
fn member_order_is_declaration_order() {
    let parser = Parser::new();
    let result = parser.parse_string(
        "interface M { attribute long second; attribute long first; };",
    );
    match result {
        Ok(defs) => match &defs[0] {
            Definition::Interface(i) => {
                let names: Vec<&str> = i
                    .members
                    .iter()
                    .map(|m| match m {
                        Member::Attribute(a) => a.name.as_str(),
                        _ => panic!("expected attributes"),
                    })
                    .collect();
                assert_eq!(names, vec!["second", "first"]);
            },
            other => panic!("expected an interface, got {:?}", other),
        },
        Err(e) => panic!("parse failed: {:?}", e),
    }
}

#[test]
fn argument_list_extended_attribute() {
    let parser = Parser::new();
    let result = parser.parse_string("[Factory(DOMString name, long age)] interface F { };");
    match result {
        Ok(defs) => match &defs[0] {
            Definition::Interface(i) => {
                assert_eq!(
                    i.extended_attributes,
                    vec![ExtendedAttribute::ArgumentList {
                        name: "Factory".to_string(),
                        arguments: vec![
                            Argument {
                                ty: Type::Primitive(Primitive::DOMString),
                                name: "name".to_string(),
                            },
                            Argument {
                                ty: Type::Primitive(Primitive::Long),
                                name: "age".to_string(),
                            },
                        ],
                    }]
                );
            },
            other => panic!("expected an interface, got {:?}", other),
        },
        Err(e) => panic!("parse failed: {:?}", e),
    }
}

#[test]
fn unterminated_block_comment_is_a_lexical_error() {
    let parser = Parser::new();
    let result = parser.parse_string("interface A { }; /* left open");
    assert_eq!(
        result,
        Err(ParseError::Lexical(LexicalError {
            position: 17,
            offending: "/*".to_string(),
        }))
    );
}

#[test]
fn unterminated_string_literal_is_a_lexical_error() {
    let parser = Parser::new();
    let result = parser.parse_string("enum E { \"open");
    assert_eq!(
        result,
        Err(ParseError::Lexical(LexicalError {
            position: 9,
            offending: "\"".to_string(),
        }))
    );
}

#[test]
fn string_const_and_literals() {
    let parser = Parser::new();
    let result = parser.parse_string(
        "dictionary L { DOMString s = \"x\"; double d = 1.5; boolean b = true; any n = null; };",
    );
    match result {
        Ok(defs) => match &defs[0] {
            Definition::Dictionary(dict) => {
                let defaults: Vec<Option<ConstValue>> = dict
                    .members
                    .iter()
                    .map(|m| match m {
                        Member::Field(f) => f.default.as_ref().map(|v| match v {
                            ConstValue::Integer(s) => ConstValue::Integer(s.clone()),
                            ConstValue::Float(s) => ConstValue::Float(s.clone()),
                            ConstValue::Str(s) => ConstValue::Str(s.clone()),
                            ConstValue::Bool(b) => ConstValue::Bool(*b),
                            ConstValue::Null => ConstValue::Null,
                        }),
                        _ => panic!("expected fields"),
                    })
                    .collect();
                assert_eq!(
                    defaults,
                    vec![
                        Some(ConstValue::Str("x".to_string())),
                        Some(ConstValue::Float("1.5".to_string())),
                        Some(ConstValue::Bool(true)),
                        Some(ConstValue::Null),
                    ]
                );
            },
            other => panic!("expected a dictionary, got {:?}", other),
        },
        Err(e) => panic!("parse failed: {:?}", e),
    }
}

#[test]
fn empty_enum_is_rejected() {
    let parser = Parser::new();
    assert!(matches!(
        Parser::new().parse_string("enum E { };"),
        Err(ParseError::Syntax(_))
    ));
    assert!(parser.parse_string("enum E { \"v\" };").is_ok());
}

#[test]
fn nested_generic_types() {
    let parser = Parser::new();
    let result = parser.parse_string("typedef sequence<sequence<long?>?> Deep;");
    let expected = vec![Definition::Typedef(Typedef {
        extended_attributes: vec![],
        ty: Type::Sequence(Box::new(Type::Nullable(Box::new(Type::Sequence(Box::new(
            Type::Nullable(Box::new(Type::Primitive(Primitive::Long))),
        )))))),
        name: "Deep".to_string(),
    })];
    assert_eq!(result, Ok(expected));
}

#[test]
fn member_extended_attributes_in_order() {
    let parser = Parser::new();
    let result = parser.parse_string("interface I { [A, B] attribute long x; };");
    match result {
        Ok(defs) => match &defs[0] {
            Definition::Interface(i) => match &i.members[0] {
                Member::Attribute(a) => {
                    assert_eq!(
                        a.extended_attributes,
                        vec![
                            ExtendedAttribute::NoArguments("A".to_string()),
                            ExtendedAttribute::NoArguments("B".to_string()),
                        ]
                    );
                },
                other => panic!("expected an attribute, got {:?}", other),
            },
            other => panic!("expected an interface, got {:?}", other),
        },
        Err(e) => panic!("parse failed: {:?}", e),
    }
}

#[test]
fn partial_applies_to_interfaces_dictionaries_and_namespaces() {
    let parser = Parser::new();
    let ok = parser.parse_string("partial interface I { }; partial dictionary D { };");
    match ok {
        Ok(defs) => {
            assert!(matches!(&defs[0], Definition::Interface(i) if i.partial));
            assert!(matches!(&defs[1], Definition::Dictionary(d) if d.partial));
        },
        Err(e) => panic!("parse failed: {:?}", e),
    }
    assert!(matches!(
        parser.parse_string("partial enum E { \"v\" };"),
        Err(ParseError::Syntax(_))
    ));
}

#[test]
fn union_needs_at_least_two_members() {
    let parser = Parser::new();
    assert!(matches!(
        parser.parse_string("typedef (long) T;"),
        Err(ParseError::Syntax(_))
    ));
    assert!(parser.parse_string("typedef (long or short) T;").is_ok());
}
