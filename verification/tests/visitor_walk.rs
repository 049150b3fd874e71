use webidl::Parser;
use webidl::ast::Definition;
use webidl::ast::ExtendedAttribute;
use webidl::ast::Member;
use webidl::ast::Type;
use webidl::visitor::walk;
use webidl::visitor::Visitor;

struct Counter {
    definitions: usize,
    attributes: usize,
    members: usize,
    types: usize,
}

impl Visitor for Counter {
    fn visit_definition(&mut self, _d: &Definition) {
        self.definitions += 1;
    }

    fn visit_extended_attribute(&mut self, _a: &ExtendedAttribute) {
        self.attributes += 1;
    }

    fn visit_member(&mut self, _m: &Member) {
        self.members += 1;
    }

    fn visit_type(&mut self, _t: &Type) {
        self.types += 1;
    }
}

struct NameCollector {
    names: Vec<String>,
}

impl Visitor for NameCollector {
    fn visit_definition(&mut self, d: &Definition) {
        let name = match d {
            Definition::Interface(x) => x.name.clone(),
            Definition::Dictionary(x) => x.name.clone(),
            Definition::Enum(x) => x.name.clone(),
            Definition::Typedef(x) => x.name.clone(),
            Definition::Callback(x) => x.name.clone(),
            Definition::Namespace(x) => x.name.clone(),
            Definition::Implements(x) => x.implementor.clone(),
            Definition::Includes(x) => x.includer.clone(),
        };
        self.names.push(name);
    }
}

#[test]
fn default_visitor_walks_every_node_once_and_leaves_ast_unchanged() {
    let text = "[A] interface I { attribute long x; void f(long a, (short or byte)? b); };";
    let parser = Parser::new();
    let ast = parser.parse_string(text).unwrap();
    let again = parser.parse_string(text).unwrap();

    let mut counter = Counter { definitions: 0, attributes: 0, members: 0, types: 0 };
    walk(&ast, &mut counter);

    // 1 definition; 1 extended attribute; 2 members; types: long (attribute),
    // void (return), long (argument), nullable, union, short, byte.
    assert_eq!(counter.definitions, 1);
    assert_eq!(counter.attributes, 1);
    assert_eq!(counter.members, 2);
    assert_eq!(counter.types, 7);

    // The traversal takes the AST by shared reference: it is unchanged.
    assert_eq!(ast, again);
}

struct Silent;

impl Visitor for Silent {
}

#[test]
fn all_default_visitor_is_a_no_op() {
    let parser = Parser::new();
    let ast = parser.parse_string("namespace N { };").unwrap();
    let mut v = Silent;
    walk(&ast, &mut v);
    assert_eq!(ast, parser.parse_string("namespace N { };").unwrap());
}

#[test]
fn visitor_sees_definitions_in_source_order() {
    let text = "interface B { }; interface A { }; enum C { \"v\" };";
    let parser = Parser::new();
    let ast = parser.parse_string(text).unwrap();
    let mut collector = NameCollector { names: vec![] };
    walk(&ast, &mut collector);
    assert_eq!(collector.names, vec!["B".to_string(), "A".to_string(), "C".to_string()]);
}
