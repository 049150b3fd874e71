//! The abstract syntax tree: a pure, strictly tree-shaped data model of a
//! parsed WebIDL source.
//!
//! An `AST` is the ordered sequence of definitions as they stand in the
//! source; extended-attribute lists and member lists keep their source order.
//! Each executable type has a mathematical model (`...Model`) reached through
//! `deep_view`, and the parser's contracts speak of those models.

use vstd::prelude::*;

use crate::lexer::Token;
use crate::lexer::TokenModel;

verus! {

broadcast use
    vstd::std_specs::vec::axiom_vec_index_decreases,
    vstd::std_specs::vec::axiom_vec_decreases_to_view,
    vstd::seq::axiom_seq_index_decreases,
    vstd::seq::axiom_seq_subrange_decreases,
;

/// A parsed WebIDL source: its definitions in source order.
pub type AST = Vec<Definition>;

/// A top-level definition.
#[derive(Debug, PartialEq, Eq)]
pub enum Definition {
    Interface(Interface),
    Dictionary(Dictionary),
    Enum(Enum),
    Typedef(Typedef),
    Callback(Callback),
    Namespace(Namespace),
    Implements(ImplementsStatement),
    Includes(IncludesStatement),
}

/// An `interface` definition, partial or not, with optional single
/// inheritance.
#[derive(Debug, PartialEq, Eq)]
pub struct Interface {
    pub extended_attributes: Vec<ExtendedAttribute>,
    pub partial: bool,
    pub name: String,
    pub inherits: Option<String>,
    pub members: Vec<Member>,
}

/// A `dictionary` definition, partial or not, with optional single
/// inheritance.
#[derive(Debug, PartialEq, Eq)]
pub struct Dictionary {
    pub extended_attributes: Vec<ExtendedAttribute>,
    pub partial: bool,
    pub name: String,
    pub inherits: Option<String>,
    pub members: Vec<Member>,
}

/// An `enum` definition: its string values in source order.
#[derive(Debug, PartialEq, Eq)]
pub struct Enum {
    pub extended_attributes: Vec<ExtendedAttribute>,
    pub name: String,
    pub values: Vec<String>,
}

/// A `typedef` definition.
#[derive(Debug, PartialEq, Eq)]
pub struct Typedef {
    pub extended_attributes: Vec<ExtendedAttribute>,
    pub ty: Type,
    pub name: String,
}

/// A `callback` function definition.
#[derive(Debug, PartialEq, Eq)]
pub struct Callback {
    pub extended_attributes: Vec<ExtendedAttribute>,
    pub name: String,
    pub return_type: Type,
    pub arguments: Vec<Argument>,
}

/// A `namespace` definition, partial or not.
#[derive(Debug, PartialEq, Eq)]
pub struct Namespace {
    pub extended_attributes: Vec<ExtendedAttribute>,
    pub partial: bool,
    pub name: String,
    pub members: Vec<Member>,
}

/// An `A implements B;` statement.
#[derive(Debug, PartialEq, Eq)]
pub struct ImplementsStatement {
    pub extended_attributes: Vec<ExtendedAttribute>,
    pub implementor: String,
    pub implemented: String,
}

/// An `A includes B;` statement.
#[derive(Debug, PartialEq, Eq)]
pub struct IncludesStatement {
    pub extended_attributes: Vec<ExtendedAttribute>,
    pub includer: String,
    pub included: String,
}

/// A member of an interface, dictionary or namespace, owned by exactly one
/// definition.
#[derive(Debug, PartialEq, Eq)]
pub enum Member {
    Attribute(Attribute),
    Operation(Operation),
    Const(Const),
    Field(Field),
}

/// An `attribute` member.
#[derive(Debug, PartialEq, Eq)]
pub struct Attribute {
    pub extended_attributes: Vec<ExtendedAttribute>,
    pub readonly: bool,
    pub ty: Type,
    pub name: String,
}

/// An operation (method) member.
#[derive(Debug, PartialEq, Eq)]
pub struct Operation {
    pub extended_attributes: Vec<ExtendedAttribute>,
    pub return_type: Type,
    pub name: String,
    pub arguments: Vec<Argument>,
}

/// A `const` member.
#[derive(Debug, PartialEq, Eq)]
pub struct Const {
    pub extended_attributes: Vec<ExtendedAttribute>,
    pub ty: Type,
    pub name: String,
    pub value: ConstValue,
}

/// A dictionary field member, with an optional default value.
#[derive(Debug, PartialEq, Eq)]
pub struct Field {
    pub extended_attributes: Vec<ExtendedAttribute>,
    pub required: bool,
    pub ty: Type,
    pub name: String,
    pub default: Option<ConstValue>,
}

/// A formal argument of an operation or callback.
#[derive(Debug, PartialEq, Eq)]
pub struct Argument {
    pub ty: Type,
    pub name: String,
}

/// A constant or default value. Numeric literals keep their exact source
/// lexeme; this library gives them no numeric interpretation.
#[derive(Debug, PartialEq, Eq)]
pub enum ConstValue {
    Integer(String),
    Float(String),
    Str(String),
    Bool(bool),
    Null,
}

/// A type: a primitive, an unresolved named reference, or a recursively
/// owned composite.
#[derive(Debug, PartialEq, Eq)]
pub enum Type {
    Primitive(Primitive),
    Named(String),
    Sequence(Box<Type>),
    FrozenArray(Box<Type>),
    Promise(Box<Type>),
    Union(Vec<Type>),
    Nullable(Box<Type>),
}

/// A primitive type.
#[derive(Clone, Copy, Debug, PartialEq, Eq, Structural)]
pub enum Primitive {
    Any,
    Void,
    Boolean,
    Byte,
    Octet,
    Short,
    UnsignedShort,
    Long,
    UnsignedLong,
    LongLong,
    UnsignedLongLong,
    Float,
    Double,
    DOMString,
    ByteString,
    USVString,
    Object,
}

/// An extended attribute: a bracket-delimited annotation on a definition or
/// member.
#[derive(Debug, PartialEq, Eq)]
pub enum ExtendedAttribute {
    /// `[Name]`
    NoArguments(String),
    /// `[Name(arguments)]`
    ArgumentList { name: String, arguments: Vec<Argument> },
    /// `[Lhs=Rhs]`
    IdentifierWithRhs { lhs: String, rhs: String },
    /// Any other token run, kept losslessly in source order.
    Other(Vec<Token>),
}

// ---------------------------------------------------------------------------
// Mathematical models
// ---------------------------------------------------------------------------

pub enum DefinitionModel {
    Interface(InterfaceModel),
    Dictionary(DictionaryModel),
    Enum(EnumModel),
    Typedef(TypedefModel),
    Callback(CallbackModel),
    Namespace(NamespaceModel),
    Implements(ImplementsModel),
    Includes(IncludesModel),
}

pub struct InterfaceModel {
    pub extended_attributes: Seq<ExtendedAttributeModel>,
    pub partial: bool,
    pub name: Seq<char>,
    pub inherits: Option<Seq<char>>,
    pub members: Seq<MemberModel>,
}

pub struct DictionaryModel {
    pub extended_attributes: Seq<ExtendedAttributeModel>,
    pub partial: bool,
    pub name: Seq<char>,
    pub inherits: Option<Seq<char>>,
    pub members: Seq<MemberModel>,
}

pub struct EnumModel {
    pub extended_attributes: Seq<ExtendedAttributeModel>,
    pub name: Seq<char>,
    pub values: Seq<Seq<char>>,
}

pub struct TypedefModel {
    pub extended_attributes: Seq<ExtendedAttributeModel>,
    pub ty: TypeModel,
    pub name: Seq<char>,
}

pub struct CallbackModel {
    pub extended_attributes: Seq<ExtendedAttributeModel>,
    pub name: Seq<char>,
    pub return_type: TypeModel,
    pub arguments: Seq<ArgumentModel>,
}

pub struct NamespaceModel {
    pub extended_attributes: Seq<ExtendedAttributeModel>,
    pub partial: bool,
    pub name: Seq<char>,
    pub members: Seq<MemberModel>,
}

pub struct ImplementsModel {
    pub extended_attributes: Seq<ExtendedAttributeModel>,
    pub implementor: Seq<char>,
    pub implemented: Seq<char>,
}

pub struct IncludesModel {
    pub extended_attributes: Seq<ExtendedAttributeModel>,
    pub includer: Seq<char>,
    pub included: Seq<char>,
}

pub enum MemberModel {
    Attribute(AttributeModel),
    Operation(OperationModel),
    Const(ConstMemberModel),
    Field(FieldModel),
}

pub struct AttributeModel {
    pub extended_attributes: Seq<ExtendedAttributeModel>,
    pub readonly: bool,
    pub ty: TypeModel,
    pub name: Seq<char>,
}

pub struct OperationModel {
    pub extended_attributes: Seq<ExtendedAttributeModel>,
    pub return_type: TypeModel,
    pub name: Seq<char>,
    pub arguments: Seq<ArgumentModel>,
}

pub struct ConstMemberModel {
    pub extended_attributes: Seq<ExtendedAttributeModel>,
    pub ty: TypeModel,
    pub name: Seq<char>,
    pub value: ConstValueModel,
}

pub struct FieldModel {
    pub extended_attributes: Seq<ExtendedAttributeModel>,
    pub required: bool,
    pub ty: TypeModel,
    pub name: Seq<char>,
    pub default: Option<ConstValueModel>,
}

pub struct ArgumentModel {
    pub ty: TypeModel,
    pub name: Seq<char>,
}

pub enum ConstValueModel {
    Integer(Seq<char>),
    Float(Seq<char>),
    Str(Seq<char>),
    Bool(bool),
    Null,
}

pub enum TypeModel {
    Primitive(Primitive),
    Named(Seq<char>),
    Sequence(Box<TypeModel>),
    FrozenArray(Box<TypeModel>),
    Promise(Box<TypeModel>),
    Union(Seq<TypeModel>),
    Nullable(Box<TypeModel>),
}

pub enum ExtendedAttributeModel {
    NoArguments(Seq<char>),
    ArgumentList { name: Seq<char>, arguments: Seq<ArgumentModel> },
    IdentifierWithRhs { lhs: Seq<char>, rhs: Seq<char> },
    Other(Seq<TokenModel>),
}

// ---------------------------------------------------------------------------
// Views
// ---------------------------------------------------------------------------

/// The model of a type.
pub open spec fn view_type(t: Type) -> TypeModel
    decreases t, 0int,
{
    match t {
        Type::Primitive(p) => TypeModel::Primitive(p),
        Type::Named(s) => TypeModel::Named(s@),
        Type::Sequence(t1) => TypeModel::Sequence(Box::new(view_type(*t1))),
        Type::FrozenArray(t1) => TypeModel::FrozenArray(Box::new(view_type(*t1))),
        Type::Promise(t1) => TypeModel::Promise(Box::new(view_type(*t1))),
        Type::Union(ts) => TypeModel::Union(view_type_seq(ts@)),
        Type::Nullable(t1) => TypeModel::Nullable(Box::new(view_type(*t1))),
    }
}

/// The models of a sequence of types, in order.
pub open spec fn view_type_seq(ts: Seq<Type>) -> Seq<TypeModel>
    decreases ts, 1int,
{
    if ts.len() == 0 {
        Seq::empty()
    } else {
        seq![view_type(ts[0])] + view_type_seq(ts.subrange(1, ts.len() as int))
    }
}

impl DeepView for Type {
    type V = TypeModel;

    open spec fn deep_view(&self) -> TypeModel {
        view_type(*self)
    }
}

/// `view_type_seq` maps `view_type` over the sequence, element by element.
pub proof fn lemma_view_type_seq_is_deep_view(ts: Seq<Type>)
    ensures
        view_type_seq(ts) == Seq::new(ts.len(), |i: int| ts[i].deep_view()),
    decreases ts.len(),
{
    if ts.len() == 0 {
        assert(view_type_seq(ts) =~= Seq::new(ts.len(), |i: int| ts[i].deep_view()));
    } else {
        lemma_view_type_seq_is_deep_view(ts.subrange(1, ts.len() as int));
        assert(view_type_seq(ts) =~= Seq::new(ts.len(), |i: int| ts[i].deep_view()));
    }
}

impl DeepView for Argument {
    type V = ArgumentModel;

    open spec fn deep_view(&self) -> ArgumentModel {
        ArgumentModel { ty: self.ty.deep_view(), name: self.name@ }
    }
}

impl DeepView for ConstValue {
    type V = ConstValueModel;

    open spec fn deep_view(&self) -> ConstValueModel {
        match self {
            ConstValue::Integer(s) => ConstValueModel::Integer(s@),
            ConstValue::Float(s) => ConstValueModel::Float(s@),
            ConstValue::Str(s) => ConstValueModel::Str(s@),
            ConstValue::Bool(b) => ConstValueModel::Bool(*b),
            ConstValue::Null => ConstValueModel::Null,
        }
    }
}

impl DeepView for ExtendedAttribute {
    type V = ExtendedAttributeModel;

    open spec fn deep_view(&self) -> ExtendedAttributeModel {
        match self {
            ExtendedAttribute::NoArguments(s) => ExtendedAttributeModel::NoArguments(s@),
            ExtendedAttribute::ArgumentList { name, arguments } => (
            ExtendedAttributeModel::ArgumentList {
                name: name@,
                arguments: arguments.deep_view(),
            }),
            ExtendedAttribute::IdentifierWithRhs { lhs, rhs } => (
            ExtendedAttributeModel::IdentifierWithRhs { lhs: lhs@, rhs: rhs@ }),
            ExtendedAttribute::Other(ts) => ExtendedAttributeModel::Other(ts.deep_view()),
        }
    }
}

impl DeepView for Attribute {
    type V = AttributeModel;

    open spec fn deep_view(&self) -> AttributeModel {
        AttributeModel {
            extended_attributes: self.extended_attributes.deep_view(),
            readonly: self.readonly,
            ty: self.ty.deep_view(),
            name: self.name@,
        }
    }
}

impl DeepView for Operation {
    type V = OperationModel;

    open spec fn deep_view(&self) -> OperationModel {
        OperationModel {
            extended_attributes: self.extended_attributes.deep_view(),
            return_type: self.return_type.deep_view(),
            name: self.name@,
            arguments: self.arguments.deep_view(),
        }
    }
}

impl DeepView for Const {
    type V = ConstMemberModel;

    open spec fn deep_view(&self) -> ConstMemberModel {
        ConstMemberModel {
            extended_attributes: self.extended_attributes.deep_view(),
            ty: self.ty.deep_view(),
            name: self.name@,
            value: self.value.deep_view(),
        }
    }
}

impl DeepView for Field {
    type V = FieldModel;

    open spec fn deep_view(&self) -> FieldModel {
        FieldModel {
            extended_attributes: self.extended_attributes.deep_view(),
            required: self.required,
            ty: self.ty.deep_view(),
            name: self.name@,
            default: self.default.deep_view(),
        }
    }
}

impl DeepView for Member {
    type V = MemberModel;

    open spec fn deep_view(&self) -> MemberModel {
        match self {
            Member::Attribute(a) => MemberModel::Attribute(a.deep_view()),
            Member::Operation(o) => MemberModel::Operation(o.deep_view()),
            Member::Const(c) => MemberModel::Const(c.deep_view()),
            Member::Field(f) => MemberModel::Field(f.deep_view()),
        }
    }
}

impl DeepView for Interface {
    type V = InterfaceModel;

    open spec fn deep_view(&self) -> InterfaceModel {
        InterfaceModel {
            extended_attributes: self.extended_attributes.deep_view(),
            partial: self.partial,
            name: self.name@,
            inherits: self.inherits.deep_view(),
            members: self.members.deep_view(),
        }
    }
}

impl DeepView for Dictionary {
    type V = DictionaryModel;

    open spec fn deep_view(&self) -> DictionaryModel {
        DictionaryModel {
            extended_attributes: self.extended_attributes.deep_view(),
            partial: self.partial,
            name: self.name@,
            inherits: self.inherits.deep_view(),
            members: self.members.deep_view(),
        }
    }
}

impl DeepView for Enum {
    type V = EnumModel;

    open spec fn deep_view(&self) -> EnumModel {
        EnumModel {
            extended_attributes: self.extended_attributes.deep_view(),
            name: self.name@,
            values: self.values.deep_view(),
        }
    }
}

impl DeepView for Typedef {
    type V = TypedefModel;

    open spec fn deep_view(&self) -> TypedefModel {
        TypedefModel {
            extended_attributes: self.extended_attributes.deep_view(),
            ty: self.ty.deep_view(),
            name: self.name@,
        }
    }
}

impl DeepView for Callback {
    type V = CallbackModel;

    open spec fn deep_view(&self) -> CallbackModel {
        CallbackModel {
            extended_attributes: self.extended_attributes.deep_view(),
            name: self.name@,
            return_type: self.return_type.deep_view(),
            arguments: self.arguments.deep_view(),
        }
    }
}

impl DeepView for Namespace {
    type V = NamespaceModel;

    open spec fn deep_view(&self) -> NamespaceModel {
        NamespaceModel {
            extended_attributes: self.extended_attributes.deep_view(),
            partial: self.partial,
            name: self.name@,
            members: self.members.deep_view(),
        }
    }
}

impl DeepView for ImplementsStatement {
    type V = ImplementsModel;

    open spec fn deep_view(&self) -> ImplementsModel {
        ImplementsModel {
            extended_attributes: self.extended_attributes.deep_view(),
            implementor: self.implementor@,
            implemented: self.implemented@,
        }
    }
}

impl DeepView for IncludesStatement {
    type V = IncludesModel;

    open spec fn deep_view(&self) -> IncludesModel {
        IncludesModel {
            extended_attributes: self.extended_attributes.deep_view(),
            includer: self.includer@,
            included: self.included@,
        }
    }
}

impl DeepView for Definition {
    type V = DefinitionModel;

    open spec fn deep_view(&self) -> DefinitionModel {
        match self {
            Definition::Interface(d) => DefinitionModel::Interface(d.deep_view()),
            Definition::Dictionary(d) => DefinitionModel::Dictionary(d.deep_view()),
            Definition::Enum(d) => DefinitionModel::Enum(d.deep_view()),
            Definition::Typedef(d) => DefinitionModel::Typedef(d.deep_view()),
            Definition::Callback(d) => DefinitionModel::Callback(d.deep_view()),
            Definition::Namespace(d) => DefinitionModel::Namespace(d.deep_view()),
            Definition::Implements(d) => DefinitionModel::Implements(d.deep_view()),
            Definition::Includes(d) => DefinitionModel::Includes(d.deep_view()),
        }
    }
}

} // verus!
