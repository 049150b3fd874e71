//! The visitor: a traversal abstraction over the AST.
//!
//! A `Visitor` has one overridable handler per node kind, each a no-op by
//! default; a concrete visitor overrides only the kinds it cares about.
//! `walk` drives a pre-order traversal: at every level it follows source
//! order — each definition, then its extended attributes in list order, then
//! its members in declaration order, then each member's type structure outer
//! to inner. The traversal takes the AST by shared reference, so it cannot
//! change it.

use vstd::prelude::*;

use crate::ast::Argument;
use crate::ast::Definition;
use crate::ast::ExtendedAttribute;
use crate::ast::Member;
use crate::ast::Type;
use crate::ast::AST;

verus! {

broadcast use
    vstd::std_specs::vec::axiom_vec_index_decreases,
    vstd::std_specs::vec::axiom_vec_decreases_to_view,
    vstd::seq::axiom_seq_index_decreases,
;

/// A visitor over the AST: one handler per node kind, each a no-op unless
/// overridden.
pub trait Visitor {
    /// Called at each definition, before its children.
    fn visit_definition(&mut self, d: &Definition) {
    }

    /// Called at each extended attribute.
    fn visit_extended_attribute(&mut self, a: &ExtendedAttribute) {
    }

    /// Called at each member, before its types.
    fn visit_member(&mut self, m: &Member) {
    }

    /// Called at each type, before the types nested in it.
    fn visit_type(&mut self, t: &Type) {
    }
}

/// Walks a whole AST in pre-order source order, invoking `v` at every node.
pub fn walk<V: Visitor>(ast: &AST, v: &mut V) {
    let n = ast.len();
    let mut i: usize = 0;
    while i < n
        invariant
            n == ast@.len(),
            i <= n,
        decreases n - i,
    {
        walk_definition(v, &ast[i]);
        i = i + 1;
    }
}

/// Walks one definition: the definition itself, its extended attributes in
/// list order, then its members or types in declaration order.
fn walk_definition<V: Visitor>(v: &mut V, d: &Definition)
    decreases d,
{
    v.visit_definition(d);
    match d {
        Definition::Interface(x) => {
            walk_extended_attributes(v, &x.extended_attributes);
            walk_members(v, &x.members);
        },
        Definition::Dictionary(x) => {
            walk_extended_attributes(v, &x.extended_attributes);
            walk_members(v, &x.members);
        },
        Definition::Enum(x) => {
            walk_extended_attributes(v, &x.extended_attributes);
        },
        Definition::Typedef(x) => {
            walk_extended_attributes(v, &x.extended_attributes);
            walk_type(v, &x.ty);
        },
        Definition::Callback(x) => {
            walk_extended_attributes(v, &x.extended_attributes);
            walk_type(v, &x.return_type);
            walk_arguments(v, &x.arguments);
        },
        Definition::Namespace(x) => {
            walk_extended_attributes(v, &x.extended_attributes);
            walk_members(v, &x.members);
        },
        Definition::Implements(x) => {
            walk_extended_attributes(v, &x.extended_attributes);
        },
        Definition::Includes(x) => {
            walk_extended_attributes(v, &x.extended_attributes);
        },
    }
}

/// Walks an extended-attribute list in list order.
fn walk_extended_attributes<V: Visitor>(v: &mut V, attrs: &Vec<ExtendedAttribute>)
    decreases attrs,
{
    let n = attrs.len();
    let mut i: usize = 0;
    while i < n
        invariant
            n == attrs@.len(),
            i <= n,
        decreases n - i,
    {
        walk_extended_attribute(v, &attrs[i]);
        i = i + 1;
    }
}

/// Walks one extended attribute, then the types of its arguments, if any.
fn walk_extended_attribute<V: Visitor>(v: &mut V, a: &ExtendedAttribute)
    decreases a,
{
    v.visit_extended_attribute(a);
    match a {
        ExtendedAttribute::ArgumentList { name: _, arguments } => {
            walk_arguments(v, arguments);
        },
        _ => {},
    }
}

/// Walks the types of an argument list in declaration order.
fn walk_arguments<V: Visitor>(v: &mut V, args: &Vec<Argument>)
    decreases args,
{
    let n = args.len();
    let mut i: usize = 0;
    while i < n
        invariant
            n == args@.len(),
            i <= n,
        decreases n - i,
    {
        walk_type(v, &args[i].ty);
        i = i + 1;
    }
}

/// Walks a member list in declaration order.
fn walk_members<V: Visitor>(v: &mut V, members: &Vec<Member>)
    decreases members,
{
    let n = members.len();
    let mut i: usize = 0;
    while i < n
        invariant
            n == members@.len(),
            i <= n,
        decreases n - i,
    {
        walk_member(v, &members[i]);
        i = i + 1;
    }
}

/// Walks one member: the member itself, its extended attributes, then its
/// types outer to inner.
fn walk_member<V: Visitor>(v: &mut V, m: &Member)
    decreases m,
{
    v.visit_member(m);
    match m {
        Member::Attribute(x) => {
            walk_extended_attributes(v, &x.extended_attributes);
            walk_type(v, &x.ty);
        },
        Member::Operation(x) => {
            walk_extended_attributes(v, &x.extended_attributes);
            walk_type(v, &x.return_type);
            walk_arguments(v, &x.arguments);
        },
        Member::Const(x) => {
            walk_extended_attributes(v, &x.extended_attributes);
            walk_type(v, &x.ty);
        },
        Member::Field(x) => {
            walk_extended_attributes(v, &x.extended_attributes);
            walk_type(v, &x.ty);
        },
    }
}

/// Walks one type and the types nested in it, outer to inner; the members
/// of a union in source order.
fn walk_type<V: Visitor>(v: &mut V, t: &Type)
    decreases t,
{
    v.visit_type(t);
    match t {
        Type::Sequence(inner) => {
            walk_type(v, inner);
        },
        Type::FrozenArray(inner) => {
            walk_type(v, inner);
        },
        Type::Promise(inner) => {
            walk_type(v, inner);
        },
        Type::Nullable(inner) => {
            walk_type(v, inner);
        },
        Type::Union(ts) => {
            walk_union_types(v, ts);
        },
        _ => {},
    }
}

/// Walks the member types of a union in source order.
fn walk_union_types<V: Visitor>(v: &mut V, ts: &Vec<Type>)
    decreases ts,
{
    let n = ts.len();
    let mut i: usize = 0;
    while i < n
        invariant
            n == ts@.len(),
            i <= n,
        decreases n - i,
    {
        walk_type(v, &ts[i]);
        i = i + 1;
    }
}

} // verus!
