//! The parser: a deterministic recursive-descent parser that reduces the
//! lexer's token stream to a sequence of `Definition` nodes, or fails at the
//! first token that no production accepts.
//!
//! Every executable parse function is mirrored by a specification function
//! over the token models; its contract states that the returned nodes and
//! positions are exactly the model's. `Parser::parse_string` therefore fixes
//! the whole parse as a pure function of the input text.
//!
//! A specification function that recurses on a position returned by a
//! sub-parser guards it (`if i < j <= toks.len()`) so that its recursion
//! visibly terminates; every sub-parser in fact advances and stays in
//! bounds, as the executable mirrors' contracts prove, so the guards'
//! else-branches are never reached.

use vstd::prelude::*;

use crate::ast::Argument;
use crate::ast::ArgumentModel;
use crate::ast::Attribute;
use crate::ast::AttributeModel;
use crate::ast::Callback;
use crate::ast::CallbackModel;
use crate::ast::Const;
use crate::ast::ConstMemberModel;
use crate::ast::ConstValue;
use crate::ast::ConstValueModel;
use crate::ast::Definition;
use crate::ast::DefinitionModel;
use crate::ast::Dictionary;
use crate::ast::DictionaryModel;
use crate::ast::Enum;
use crate::ast::EnumModel;
use crate::ast::Field;
use crate::ast::FieldModel;
use crate::ast::ImplementsStatement;
use crate::ast::ImplementsModel;
use crate::ast::IncludesStatement;
use crate::ast::IncludesModel;
use crate::ast::Interface;
use crate::ast::InterfaceModel;
use crate::ast::Member;
use crate::ast::MemberModel;
use crate::ast::Namespace;
use crate::ast::NamespaceModel;
use crate::ast::Operation;
use crate::ast::OperationModel;
use crate::ast::Primitive;
use crate::ast::Type;
use crate::ast::TypeModel;
use crate::ast::Typedef;
use crate::ast::TypedefModel;
use crate::ast::ExtendedAttribute;
use crate::ast::ExtendedAttributeModel;
use crate::ast::AST;
use crate::lexer::Keyword;
use crate::lexer::LexicalError;
use crate::lexer::LexicalErrorModel;
use crate::lexer::PosToken;
use crate::lexer::PosTokenModel;
use crate::lexer::Punct;
use crate::lexer::Token;
use crate::lexer::TokenModel;
use crate::lexer::lex;
use crate::lexer::spec_lex;

verus! {

// ---------------------------------------------------------------------------
// Errors
// ---------------------------------------------------------------------------

/// A syntax error: the offset of the offending token and that token, or
/// `None` when the input ended where more was expected.
#[derive(Debug, PartialEq, Eq)]
pub struct SyntaxError {
    pub position: usize,
    pub found: Option<Token>,
}

/// The mathematical model of a `SyntaxError`.
pub struct SyntaxErrorModel {
    pub position: int,
    pub found: Option<TokenModel>,
}

impl DeepView for SyntaxError {
    type V = SyntaxErrorModel;

    open spec fn deep_view(&self) -> SyntaxErrorModel {
        SyntaxErrorModel { position: self.position as int, found: self.found.deep_view() }
    }
}

/// A parse failure: lexical or syntactic.
#[derive(Debug, PartialEq, Eq)]
pub enum ParseError {
    Lexical(LexicalError),
    Syntax(SyntaxError),
}

/// The mathematical model of a `ParseError`.
pub enum ParseErrorModel {
    Lexical(LexicalErrorModel),
    Syntax(SyntaxErrorModel),
}

impl DeepView for ParseError {
    type V = ParseErrorModel;

    open spec fn deep_view(&self) -> ParseErrorModel {
        match self {
            ParseError::Lexical(e) => ParseErrorModel::Lexical(e.deep_view()),
            ParseError::Syntax(e) => ParseErrorModel::Syntax(e.deep_view()),
        }
    }
}

/// The syntax error reported at token offset `i`: the token there, or the
/// end of input.
pub open spec fn syntax_error_at(toks: Seq<PosTokenModel>, i: int) -> SyntaxErrorModel {
    if 0 <= i < toks.len() {
        SyntaxErrorModel { position: toks[i].start, found: Option::Some(toks[i].token) }
    } else if toks.len() > 0 {
        SyntaxErrorModel { position: toks[toks.len() - 1].end, found: Option::None }
    } else {
        SyntaxErrorModel { position: 0, found: Option::None }
    }
}

fn make_syntax_error(toks: &Vec<PosToken>, i: usize) -> (e: SyntaxError)
    ensures
        e.deep_view() == syntax_error_at(toks.deep_view(), i as int),
{
    if i < toks.len() {
        SyntaxError { position: toks[i].start, found: Option::Some(toks[i].token.dup()) }
    } else if toks.len() > 0 {
        SyntaxError { position: toks[toks.len() - 1].end, found: Option::None }
    } else {
        SyntaxError { position: 0, found: Option::None }
    }
}

/// Whether an executable parse result agrees with the model's: same nodes,
/// same end position, or the same error.
pub open spec fn parse_res_matches<T: DeepView>(
    r: Result<(T, usize), SyntaxError>,
    m: Result<(T::V, int), SyntaxErrorModel>,
) -> bool {
    match (r, m) {
        (Result::Ok(p), Result::Ok(q)) => p.0.deep_view() == q.0 && p.1 as int == q.1,
        (Result::Err(e), Result::Err(em)) => e.deep_view() == em,
        _ => false,
    }
}

// ---------------------------------------------------------------------------
// Single-token expectations
// ---------------------------------------------------------------------------

/// Expects the punctuation `p` at offset `i`; on success the next offset.
pub open spec fn spec_expect_punct(toks: Seq<PosTokenModel>, i: int, p: Punct) -> Result<
    int,
    SyntaxErrorModel,
> {
    if 0 <= i < toks.len() && toks[i].token == TokenModel::Punct(p) {
        Result::Ok(i + 1)
    } else {
        Result::Err(syntax_error_at(toks, i))
    }
}

fn expect_punct(toks: &Vec<PosToken>, i: usize, p: Punct) -> (r: Result<usize, SyntaxError>)
    requires
        i <= toks@.len(),
    ensures
        match (r, spec_expect_punct(toks.deep_view(), i as int, p)) {
            (Result::Ok(j), Result::Ok(mj)) => j as int == mj && i < j <= toks@.len(),
            (Result::Err(e), Result::Err(em)) => e.deep_view() == em,
            _ => false,
        },
{
    if i < toks.len() {
        match &toks[i].token {
            Token::Punct(q) => {
                if *q == p {
                    return Result::Ok(i + 1);
                }
            },
            _ => {},
        }
    }
    Result::Err(make_syntax_error(toks, i))
}

/// Expects an identifier at offset `i`; on success its text and the next
/// offset.
pub open spec fn spec_expect_ident(toks: Seq<PosTokenModel>, i: int) -> Result<
    (Seq<char>, int),
    SyntaxErrorModel,
> {
    if 0 <= i < toks.len() {
        match toks[i].token {
            TokenModel::Identifier(name) => Result::Ok((name, i + 1)),
            _ => Result::Err(syntax_error_at(toks, i)),
        }
    } else {
        Result::Err(syntax_error_at(toks, i))
    }
}

fn expect_ident(toks: &Vec<PosToken>, i: usize) -> (r: Result<(String, usize), SyntaxError>)
    requires
        i <= toks@.len(),
    ensures
        match (r, spec_expect_ident(toks.deep_view(), i as int)) {
            (Result::Ok(p), Result::Ok(q)) => p.0@ == q.0 && p.1 as int == q.1 && i < p.1
                <= toks@.len(),
            (Result::Err(e), Result::Err(em)) => e.deep_view() == em,
            _ => false,
        },
{
    if i < toks.len() {
        match &toks[i].token {
            Token::Identifier(name) => {
                return Result::Ok((name.clone(), i + 1));
            },
            _ => {},
        }
    }
    Result::Err(make_syntax_error(toks, i))
}

// ---------------------------------------------------------------------------
// Constant values
// ---------------------------------------------------------------------------

/// Parses a constant or default value at offset `i`: a literal, `true`,
/// `false` or `null`.
pub open spec fn spec_parse_const_value(toks: Seq<PosTokenModel>, i: int) -> Result<
    (ConstValueModel, int),
    SyntaxErrorModel,
> {
    if 0 <= i < toks.len() {
        match toks[i].token {
            TokenModel::IntegerLiteral(s) => Result::Ok((ConstValueModel::Integer(s), i + 1)),
            TokenModel::FloatLiteral(s) => Result::Ok((ConstValueModel::Float(s), i + 1)),
            TokenModel::StringLiteral(s) => Result::Ok((ConstValueModel::Str(s), i + 1)),
            TokenModel::Keyword(Keyword::True) => Result::Ok((ConstValueModel::Bool(true), i + 1)),
            TokenModel::Keyword(Keyword::False) => Result::Ok(
                (ConstValueModel::Bool(false), i + 1),
            ),
            TokenModel::Keyword(Keyword::Null) => Result::Ok((ConstValueModel::Null, i + 1)),
            _ => Result::Err(syntax_error_at(toks, i)),
        }
    } else {
        Result::Err(syntax_error_at(toks, i))
    }
}

fn parse_const_value(toks: &Vec<PosToken>, i: usize) -> (r: Result<
    (ConstValue, usize),
    SyntaxError,
>)
    requires
        i <= toks@.len(),
    ensures
        parse_res_matches(r, spec_parse_const_value(toks.deep_view(), i as int)),
        r matches Ok(p) ==> i < p.1 <= toks@.len(),
{
    if i < toks.len() {
        match &toks[i].token {
            Token::IntegerLiteral(s) => {
                return Result::Ok((ConstValue::Integer(s.clone()), i + 1));
            },
            Token::FloatLiteral(s) => {
                return Result::Ok((ConstValue::Float(s.clone()), i + 1));
            },
            Token::StringLiteral(s) => {
                return Result::Ok((ConstValue::Str(s.clone()), i + 1));
            },
            Token::Keyword(Keyword::True) => {
                return Result::Ok((ConstValue::Bool(true), i + 1));
            },
            Token::Keyword(Keyword::False) => {
                return Result::Ok((ConstValue::Bool(false), i + 1));
            },
            Token::Keyword(Keyword::Null) => {
                return Result::Ok((ConstValue::Null, i + 1));
            },
            _ => {},
        }
    }
    Result::Err(make_syntax_error(toks, i))
}

// ---------------------------------------------------------------------------
// Types
// ---------------------------------------------------------------------------

/// Applies a `?` nullable suffix standing at offset `j` to `t`, if any.
pub open spec fn spec_nullable_suffix(toks: Seq<PosTokenModel>, j: int, t: TypeModel) -> (
    TypeModel,
    int,
) {
    if 0 <= j < toks.len() && toks[j].token == TokenModel::Punct(Punct::QuestionMark) {
        (TypeModel::Nullable(Box::new(t)), j + 1)
    } else {
        (t, j)
    }
}

fn nullable_suffix(toks: &Vec<PosToken>, j: usize, t: Type) -> (r: (Type, usize))
    requires
        j <= toks@.len(),
    ensures
        ({
            let (mt, mj) = spec_nullable_suffix(toks.deep_view(), j as int, t.deep_view());
            r.0.deep_view() == mt && r.1 as int == mj && j <= r.1 <= toks@.len()
        }),
{
    if j < toks.len() {
        match &toks[j].token {
            Token::Punct(Punct::QuestionMark) => {
                return (Type::Nullable(Box::new(t)), j + 1);
            },
            _ => {},
        }
    }
    (t, j)
}

/// Parses `< Type >` starting at the `<` expected at offset `i`.
pub open spec fn spec_parse_type_argument(toks: Seq<PosTokenModel>, i: int) -> Result<
    (TypeModel, int),
    SyntaxErrorModel,
>
    decreases toks.len() - i, 11int,
{
    match spec_expect_punct(toks, i, Punct::LessThan) {
        Result::Ok(j) => if i < j <= toks.len() {
            match spec_parse_type(toks, j) {
                Result::Ok((t, k)) => match spec_expect_punct(toks, k, Punct::GreaterThan) {
                    Result::Ok(m) => Result::Ok((t, m)),
                    Result::Err(e) => Result::Err(e),
                },
                Result::Err(e) => Result::Err(e),
            }
        } else {
            Result::Err(syntax_error_at(toks, i))
        },
        Result::Err(e) => Result::Err(e),
    }
}

/// Parses a type at offset `i`. `?` binds tighter than `or`: each member of
/// a union carries its own suffix, and the whole parenthesized union may
/// carry one more.
pub open spec fn spec_parse_type(toks: Seq<PosTokenModel>, i: int) -> Result<
    (TypeModel, int),
    SyntaxErrorModel,
>
    decreases toks.len() - i, 12int,
{
    if !(0 <= i < toks.len()) {
        Result::Err(syntax_error_at(toks, i))
    } else {
        match toks[i].token {
            TokenModel::Identifier(name) => Result::Ok(
                spec_nullable_suffix(toks, i + 1, TypeModel::Named(name)),
            ),
            TokenModel::Keyword(Keyword::Sequence) => match spec_parse_type_argument(toks, i + 1) {
                Result::Ok((t, j)) => if j <= toks.len() {
                    Result::Ok(spec_nullable_suffix(toks, j, TypeModel::Sequence(Box::new(t))))
                } else {
                    Result::Err(syntax_error_at(toks, i))
                },
                Result::Err(e) => Result::Err(e),
            },
            TokenModel::Keyword(Keyword::FrozenArray) => match spec_parse_type_argument(
                toks,
                i + 1,
            ) {
                Result::Ok((t, j)) => if j <= toks.len() {
                    Result::Ok(spec_nullable_suffix(toks, j, TypeModel::FrozenArray(Box::new(t))))
                } else {
                    Result::Err(syntax_error_at(toks, i))
                },
                Result::Err(e) => Result::Err(e),
            },
            TokenModel::Keyword(Keyword::Promise) => match spec_parse_type_argument(toks, i + 1) {
                Result::Ok((t, j)) => if j <= toks.len() {
                    Result::Ok(spec_nullable_suffix(toks, j, TypeModel::Promise(Box::new(t))))
                } else {
                    Result::Err(syntax_error_at(toks, i))
                },
                Result::Err(e) => Result::Err(e),
            },
            TokenModel::Punct(Punct::LeftParen) => match spec_parse_type(toks, i + 1) {
                Result::Ok((t1, j)) => if i < j <= toks.len() {
                    if j < toks.len() && toks[j].token == TokenModel::Keyword(Keyword::Or) {
                        match spec_parse_union_rest(toks, j) {
                            Result::Ok((ts, k)) => Result::Ok(
                                spec_nullable_suffix(toks, k, TypeModel::Union(seq![t1] + ts)),
                            ),
                            Result::Err(e) => Result::Err(e),
                        }
                    } else {
                        Result::Err(syntax_error_at(toks, j))
                    }
                } else {
                    Result::Err(syntax_error_at(toks, i))
                },
                Result::Err(e) => Result::Err(e),
            },
            TokenModel::Keyword(Keyword::Unsigned) => if i + 1 < toks.len() && toks[i + 1].token
                == TokenModel::Keyword(Keyword::Short) {
                Result::Ok(
                    spec_nullable_suffix(toks, i + 2, TypeModel::Primitive(Primitive::UnsignedShort)),
                )
            } else if i + 1 < toks.len() && toks[i + 1].token == TokenModel::Keyword(Keyword::Long) {
                if i + 2 < toks.len() && toks[i + 2].token == TokenModel::Keyword(Keyword::Long) {
                    Result::Ok(
                        spec_nullable_suffix(
                            toks,
                            i + 3,
                            TypeModel::Primitive(Primitive::UnsignedLongLong),
                        ),
                    )
                } else {
                    Result::Ok(
                        spec_nullable_suffix(
                            toks,
                            i + 2,
                            TypeModel::Primitive(Primitive::UnsignedLong),
                        ),
                    )
                }
            } else {
                Result::Err(syntax_error_at(toks, i + 1))
            },
            TokenModel::Keyword(Keyword::Long) => if i + 1 < toks.len() && toks[i + 1].token
                == TokenModel::Keyword(Keyword::Long) {
                Result::Ok(spec_nullable_suffix(toks, i + 2, TypeModel::Primitive(Primitive::LongLong)))
            } else {
                Result::Ok(spec_nullable_suffix(toks, i + 1, TypeModel::Primitive(Primitive::Long)))
            },
            TokenModel::Keyword(Keyword::Short) => Result::Ok(
                spec_nullable_suffix(toks, i + 1, TypeModel::Primitive(Primitive::Short)),
            ),
            TokenModel::Keyword(Keyword::Byte) => Result::Ok(
                spec_nullable_suffix(toks, i + 1, TypeModel::Primitive(Primitive::Byte)),
            ),
            TokenModel::Keyword(Keyword::Octet) => Result::Ok(
                spec_nullable_suffix(toks, i + 1, TypeModel::Primitive(Primitive::Octet)),
            ),
            TokenModel::Keyword(Keyword::Boolean) => Result::Ok(
                spec_nullable_suffix(toks, i + 1, TypeModel::Primitive(Primitive::Boolean)),
            ),
            TokenModel::Keyword(Keyword::Float) => Result::Ok(
                spec_nullable_suffix(toks, i + 1, TypeModel::Primitive(Primitive::Float)),
            ),
            TokenModel::Keyword(Keyword::Double) => Result::Ok(
                spec_nullable_suffix(toks, i + 1, TypeModel::Primitive(Primitive::Double)),
            ),
            TokenModel::Keyword(Keyword::DOMString) => Result::Ok(
                spec_nullable_suffix(toks, i + 1, TypeModel::Primitive(Primitive::DOMString)),
            ),
            TokenModel::Keyword(Keyword::ByteString) => Result::Ok(
                spec_nullable_suffix(toks, i + 1, TypeModel::Primitive(Primitive::ByteString)),
            ),
            TokenModel::Keyword(Keyword::USVString) => Result::Ok(
                spec_nullable_suffix(toks, i + 1, TypeModel::Primitive(Primitive::USVString)),
            ),
            TokenModel::Keyword(Keyword::Object) => Result::Ok(
                spec_nullable_suffix(toks, i + 1, TypeModel::Primitive(Primitive::Object)),
            ),
            TokenModel::Keyword(Keyword::Any) => Result::Ok(
                spec_nullable_suffix(toks, i + 1, TypeModel::Primitive(Primitive::Any)),
            ),
            TokenModel::Keyword(Keyword::Void) => Result::Ok(
                spec_nullable_suffix(toks, i + 1, TypeModel::Primitive(Primitive::Void)),
            ),
            _ => Result::Err(syntax_error_at(toks, i)),
        }
    }
}

/// Parses the rest of a union at offset `j`, which stands at `or` or at the
/// closing `)`; consumes the `)`.
pub open spec fn spec_parse_union_rest(toks: Seq<PosTokenModel>, j: int) -> Result<
    (Seq<TypeModel>, int),
    SyntaxErrorModel,
>
    decreases toks.len() - j, 13int,
{
    if !(0 <= j < toks.len()) {
        Result::Err(syntax_error_at(toks, j))
    } else if toks[j].token == TokenModel::Keyword(Keyword::Or) {
        match spec_parse_type(toks, j + 1) {
            Result::Ok((t, k)) => if j < k <= toks.len() {
                match spec_parse_union_rest(toks, k) {
                    Result::Ok((ts, e)) => Result::Ok((seq![t] + ts, e)),
                    Result::Err(e) => Result::Err(e),
                }
            } else {
                Result::Err(syntax_error_at(toks, j))
            },
            Result::Err(e) => Result::Err(e),
        }
    } else if toks[j].token == TokenModel::Punct(Punct::RightParen) {
        Result::Ok((Seq::empty(), j + 1))
    } else {
        Result::Err(syntax_error_at(toks, j))
    }
}

fn parse_type_argument(toks: &Vec<PosToken>, i: usize) -> (r: Result<(Type, usize), SyntaxError>)
    requires
        i <= toks@.len(),
    ensures
        parse_res_matches(r, spec_parse_type_argument(toks.deep_view(), i as int)),
        r matches Ok(p) ==> i < p.1 <= toks@.len(),
    decreases toks@.len() - i, 11int,
{
    match expect_punct(toks, i, Punct::LessThan) {
        Result::Ok(j) => match parse_type(toks, j) {
            Result::Ok((t, k)) => match expect_punct(toks, k, Punct::GreaterThan) {
                Result::Ok(m) => Result::Ok((t, m)),
                Result::Err(e) => Result::Err(e),
            },
            Result::Err(e) => Result::Err(e),
        },
        Result::Err(e) => Result::Err(e),
    }
}

fn parse_type(toks: &Vec<PosToken>, i: usize) -> (r: Result<(Type, usize), SyntaxError>)
    requires
        i <= toks@.len(),
    ensures
        parse_res_matches(r, spec_parse_type(toks.deep_view(), i as int)),
        r matches Ok(p) ==> i < p.1 <= toks@.len(),
    decreases toks@.len() - i, 12int,
{
    if i >= toks.len() {
        return Result::Err(make_syntax_error(toks, i));
    }
    match &toks[i].token {
        Token::Identifier(name) => Result::Ok(
            nullable_suffix(toks, i + 1, Type::Named(name.clone())),
        ),
        Token::Keyword(Keyword::Sequence) => match parse_type_argument(toks, i + 1) {
            Result::Ok((t, j)) => Result::Ok(
                nullable_suffix(toks, j, Type::Sequence(Box::new(t))),
            ),
            Result::Err(e) => Result::Err(e),
        },
        Token::Keyword(Keyword::FrozenArray) => match parse_type_argument(toks, i + 1) {
            Result::Ok((t, j)) => Result::Ok(
                nullable_suffix(toks, j, Type::FrozenArray(Box::new(t))),
            ),
            Result::Err(e) => Result::Err(e),
        },
        Token::Keyword(Keyword::Promise) => match parse_type_argument(toks, i + 1) {
            Result::Ok((t, j)) => Result::Ok(nullable_suffix(toks, j, Type::Promise(Box::new(t)))),
            Result::Err(e) => Result::Err(e),
        },
        Token::Punct(Punct::LeftParen) => match parse_type(toks, i + 1) {
            Result::Ok((t1, j)) => {
                let is_or = if j < toks.len() {
                    match &toks[j].token {
                        Token::Keyword(Keyword::Or) => true,
                        _ => false,
                    }
                } else {
                    false
                };
                if is_or {
                    match parse_union_rest(toks, j) {
                        Result::Ok((ts, k)) => {
                            let ghost t1m = t1.deep_view();
                            let ghost tsm = ts.deep_view();
                            let mut v: Vec<Type> = Vec::new();
                            v.push(t1);
                            let mut rest = ts;
                            v.append(&mut rest);
                            proof {
                                assert(v.deep_view() =~= seq![t1m] + tsm);
                                crate::ast::lemma_view_type_seq_is_deep_view(v@);
                                assert(crate::ast::view_type_seq(v@) =~= seq![t1m] + tsm);
                            }
                            Result::Ok(nullable_suffix(toks, k, Type::Union(v)))
                        },
                        Result::Err(e) => Result::Err(e),
                    }
                } else {
                    Result::Err(make_syntax_error(toks, j))
                }
            },
            Result::Err(e) => Result::Err(e),
        },
        Token::Keyword(Keyword::Unsigned) => {
            let next_short = if i + 1 < toks.len() {
                match &toks[i + 1].token {
                    Token::Keyword(Keyword::Short) => true,
                    _ => false,
                }
            } else {
                false
            };
            let next_long = if i + 1 < toks.len() {
                match &toks[i + 1].token {
                    Token::Keyword(Keyword::Long) => true,
                    _ => false,
                }
            } else {
                false
            };
            if next_short {
                Result::Ok(nullable_suffix(toks, i + 2, Type::Primitive(Primitive::UnsignedShort)))
            } else if next_long {
                let second_long = if i + 2 < toks.len() {
                    match &toks[i + 2].token {
                        Token::Keyword(Keyword::Long) => true,
                        _ => false,
                    }
                } else {
                    false
                };
                if second_long {
                    Result::Ok(
                        nullable_suffix(toks, i + 3, Type::Primitive(Primitive::UnsignedLongLong)),
                    )
                } else {
                    Result::Ok(
                        nullable_suffix(toks, i + 2, Type::Primitive(Primitive::UnsignedLong)),
                    )
                }
            } else {
                Result::Err(make_syntax_error(toks, i + 1))
            }
        },
        Token::Keyword(Keyword::Long) => {
            let second_long = if i + 1 < toks.len() {
                match &toks[i + 1].token {
                    Token::Keyword(Keyword::Long) => true,
                    _ => false,
                }
            } else {
                false
            };
            if second_long {
                Result::Ok(nullable_suffix(toks, i + 2, Type::Primitive(Primitive::LongLong)))
            } else {
                Result::Ok(nullable_suffix(toks, i + 1, Type::Primitive(Primitive::Long)))
            }
        },
        Token::Keyword(Keyword::Short) => Result::Ok(
            nullable_suffix(toks, i + 1, Type::Primitive(Primitive::Short)),
        ),
        Token::Keyword(Keyword::Byte) => Result::Ok(
            nullable_suffix(toks, i + 1, Type::Primitive(Primitive::Byte)),
        ),
        Token::Keyword(Keyword::Octet) => Result::Ok(
            nullable_suffix(toks, i + 1, Type::Primitive(Primitive::Octet)),
        ),
        Token::Keyword(Keyword::Boolean) => Result::Ok(
            nullable_suffix(toks, i + 1, Type::Primitive(Primitive::Boolean)),
        ),
        Token::Keyword(Keyword::Float) => Result::Ok(
            nullable_suffix(toks, i + 1, Type::Primitive(Primitive::Float)),
        ),
        Token::Keyword(Keyword::Double) => Result::Ok(
            nullable_suffix(toks, i + 1, Type::Primitive(Primitive::Double)),
        ),
        Token::Keyword(Keyword::DOMString) => Result::Ok(
            nullable_suffix(toks, i + 1, Type::Primitive(Primitive::DOMString)),
        ),
        Token::Keyword(Keyword::ByteString) => Result::Ok(
            nullable_suffix(toks, i + 1, Type::Primitive(Primitive::ByteString)),
        ),
        Token::Keyword(Keyword::USVString) => Result::Ok(
            nullable_suffix(toks, i + 1, Type::Primitive(Primitive::USVString)),
        ),
        Token::Keyword(Keyword::Object) => Result::Ok(
            nullable_suffix(toks, i + 1, Type::Primitive(Primitive::Object)),
        ),
        Token::Keyword(Keyword::Any) => Result::Ok(
            nullable_suffix(toks, i + 1, Type::Primitive(Primitive::Any)),
        ),
        Token::Keyword(Keyword::Void) => Result::Ok(
            nullable_suffix(toks, i + 1, Type::Primitive(Primitive::Void)),
        ),
        _ => Result::Err(make_syntax_error(toks, i)),
    }
}

fn parse_union_rest(toks: &Vec<PosToken>, j: usize) -> (r: Result<(Vec<Type>, usize), SyntaxError>)
    requires
        j <= toks@.len(),
    ensures
        parse_res_matches(r, spec_parse_union_rest(toks.deep_view(), j as int)),
        r matches Ok(p) ==> j < p.1 <= toks@.len(),
    decreases toks@.len() - j, 13int,
{
    if j >= toks.len() {
        return Result::Err(make_syntax_error(toks, j));
    }
    let is_or = match &toks[j].token {
        Token::Keyword(Keyword::Or) => true,
        _ => false,
    };
    let is_close = match &toks[j].token {
        Token::Punct(Punct::RightParen) => true,
        _ => false,
    };
    if is_or {
        match parse_type(toks, j + 1) {
            Result::Ok((t, k)) => match parse_union_rest(toks, k) {
                Result::Ok((ts, e)) => {
                    let ghost tm = t.deep_view();
                    let ghost tsm = ts.deep_view();
                    let mut v: Vec<Type> = Vec::new();
                    v.push(t);
                    let mut rest = ts;
                    v.append(&mut rest);
                    proof {
                        assert(v.deep_view() =~= seq![tm] + tsm);
                    }
                    Result::Ok((v, e))
                },
                Result::Err(e) => Result::Err(e),
            },
            Result::Err(e) => Result::Err(e),
        }
    } else if is_close {
        let v: Vec<Type> = Vec::new();
        proof {
            assert(v.deep_view() =~= Seq::<TypeModel>::empty());
        }
        Result::Ok((v, j + 1))
    } else {
        Result::Err(make_syntax_error(toks, j))
    }
}

// ---------------------------------------------------------------------------
// Argument lists
// ---------------------------------------------------------------------------

/// Parses an argument list at offset `i`, which stands just after the `(`;
/// consumes the closing `)`.
pub open spec fn spec_parse_args(toks: Seq<PosTokenModel>, i: int) -> Result<
    (Seq<ArgumentModel>, int),
    SyntaxErrorModel,
>
    decreases toks.len() - i, 14int,
{
    if 0 <= i < toks.len() && toks[i].token == TokenModel::Punct(Punct::RightParen) {
        Result::Ok((Seq::empty(), i + 1))
    } else {
        spec_parse_args_item(toks, i)
    }
}

/// Parses one `Type Identifier` argument at offset `i` and the rest of the
/// list after it; consumes the closing `)`.
pub open spec fn spec_parse_args_item(toks: Seq<PosTokenModel>, i: int) -> Result<
    (Seq<ArgumentModel>, int),
    SyntaxErrorModel,
>
    decreases toks.len() - i, 13int,
{
    match spec_parse_type(toks, i) {
        Result::Ok((t, j)) => if i < j <= toks.len() {
            match spec_expect_ident(toks, j) {
                Result::Ok((name, k)) => if j < k <= toks.len() {
                    let arg = ArgumentModel { ty: t, name };
                    if k < toks.len() && toks[k].token == TokenModel::Punct(Punct::Comma) {
                        match spec_parse_args_item(toks, k + 1) {
                            Result::Ok((rest, e)) => Result::Ok((seq![arg] + rest, e)),
                            Result::Err(e) => Result::Err(e),
                        }
                    } else if k < toks.len() && toks[k].token == TokenModel::Punct(
                        Punct::RightParen,
                    ) {
                        Result::Ok((seq![arg], k + 1))
                    } else {
                        Result::Err(syntax_error_at(toks, k))
                    }
                } else {
                    Result::Err(syntax_error_at(toks, j))
                },
                Result::Err(e) => Result::Err(e),
            }
        } else {
            Result::Err(syntax_error_at(toks, i))
        },
        Result::Err(e) => Result::Err(e),
    }
}

fn parse_args(toks: &Vec<PosToken>, i: usize) -> (r: Result<(Vec<Argument>, usize), SyntaxError>)
    requires
        i <= toks@.len(),
    ensures
        parse_res_matches(r, spec_parse_args(toks.deep_view(), i as int)),
        r matches Ok(p) ==> i < p.1 <= toks@.len(),
    decreases toks@.len() - i, 14int,
{
    if i < toks.len() {
        match &toks[i].token {
            Token::Punct(Punct::RightParen) => {
                let v: Vec<Argument> = Vec::new();
                proof {
                    assert(v.deep_view() =~= Seq::<ArgumentModel>::empty());
                }
                return Result::Ok((v, i + 1));
            },
            _ => {},
        }
    }
    parse_args_item(toks, i)
}

fn parse_args_item(toks: &Vec<PosToken>, i: usize) -> (r: Result<
    (Vec<Argument>, usize),
    SyntaxError,
>)
    requires
        i <= toks@.len(),
    ensures
        parse_res_matches(r, spec_parse_args_item(toks.deep_view(), i as int)),
        r matches Ok(p) ==> i < p.1 <= toks@.len(),
    decreases toks@.len() - i, 13int,
{
    match parse_type(toks, i) {
        Result::Ok((t, j)) => match expect_ident(toks, j) {
            Result::Ok((name, k)) => {
                let arg = Argument { ty: t, name };
                let is_comma = if k < toks.len() {
                    match &toks[k].token {
                        Token::Punct(Punct::Comma) => true,
                        _ => false,
                    }
                } else {
                    false
                };
                let is_close = if k < toks.len() {
                    match &toks[k].token {
                        Token::Punct(Punct::RightParen) => true,
                        _ => false,
                    }
                } else {
                    false
                };
                if is_comma {
                    match parse_args_item(toks, k + 1) {
                        Result::Ok((rest, e)) => {
                            let ghost am = arg.deep_view();
                            let ghost rm = rest.deep_view();
                            let mut v: Vec<Argument> = Vec::new();
                            v.push(arg);
                            let mut rest2 = rest;
                            v.append(&mut rest2);
                            proof {
                                assert(v.deep_view() =~= seq![am] + rm);
                            }
                            Result::Ok((v, e))
                        },
                        Result::Err(e) => Result::Err(e),
                    }
                } else if is_close {
                    let ghost am = arg.deep_view();
                    let mut v: Vec<Argument> = Vec::new();
                    v.push(arg);
                    proof {
                        assert(v.deep_view() =~= seq![am]);
                    }
                    Result::Ok((v, k + 1))
                } else {
                    Result::Err(make_syntax_error(toks, k))
                }
            },
            Result::Err(e) => Result::Err(e),
        },
        Result::Err(e) => Result::Err(e),
    }
}

// ---------------------------------------------------------------------------
// Extended attributes
// ---------------------------------------------------------------------------

/// Whether `t` opens a nesting group inside a catch-all attribute run.
pub open spec fn is_open_token(t: TokenModel) -> bool {
    t == TokenModel::Punct(Punct::LeftParen) || t == TokenModel::Punct(Punct::LeftBracket) || t
        == TokenModel::Punct(Punct::LeftBrace)
}

/// Whether `t` closes a nesting group inside a catch-all attribute run.
pub open spec fn is_close_token(t: TokenModel) -> bool {
    t == TokenModel::Punct(Punct::RightParen) || t == TokenModel::Punct(Punct::RightBracket) || t
        == TokenModel::Punct(Punct::RightBrace)
}

/// Collects the token run of a catch-all extended attribute from offset `i`:
/// it ends, unconsumed, at the first `,` or `]` outside any nested `()`,
/// `[]` or `{}` group. `depth` is the current nesting depth.
pub open spec fn spec_parse_other_run(toks: Seq<PosTokenModel>, i: int, depth: int) -> Result<
    (Seq<TokenModel>, int),
    SyntaxErrorModel,
>
    decreases toks.len() - i, 6int,
{
    if !(0 <= i < toks.len()) {
        Result::Err(syntax_error_at(toks, i))
    } else {
        let t = toks[i].token;
        if depth == 0 && (t == TokenModel::Punct(Punct::Comma) || t == TokenModel::Punct(
            Punct::RightBracket,
        )) {
            Result::Ok((Seq::empty(), i))
        } else if is_open_token(t) {
            match spec_parse_other_run(toks, i + 1, depth + 1) {
                Result::Ok((run, j)) => Result::Ok((seq![t] + run, j)),
                Result::Err(e) => Result::Err(e),
            }
        } else if is_close_token(t) {
            if depth > 0 {
                match spec_parse_other_run(toks, i + 1, depth - 1) {
                    Result::Ok((run, j)) => Result::Ok((seq![t] + run, j)),
                    Result::Err(e) => Result::Err(e),
                }
            } else {
                Result::Err(syntax_error_at(toks, i))
            }
        } else {
            match spec_parse_other_run(toks, i + 1, depth) {
                Result::Ok((run, j)) => Result::Ok((seq![t] + run, j)),
                Result::Err(e) => Result::Err(e),
            }
        }
    }
}

fn parse_other_run(toks: &Vec<PosToken>, i: usize, depth: usize) -> (r: Result<
    (Vec<Token>, usize),
    SyntaxError,
>)
    requires
        i <= toks@.len(),
        depth <= i,
    ensures
        parse_res_matches(r, spec_parse_other_run(toks.deep_view(), i as int, depth as int)),
        r matches Ok(p) ==> i <= p.1 <= toks@.len(),
        r matches Ok(p) && p.1 == i ==> (toks.deep_view()[i as int].token == TokenModel::Punct(
            Punct::Comma,
        ) || toks.deep_view()[i as int].token == TokenModel::Punct(Punct::RightBracket)),
    decreases toks@.len() - i, 6int,
{
    if i >= toks.len() {
        return Result::Err(make_syntax_error(toks, i));
    }
    let is_stop = if depth == 0 {
        match &toks[i].token {
            Token::Punct(Punct::Comma) => true,
            Token::Punct(Punct::RightBracket) => true,
            _ => false,
        }
    } else {
        false
    };
    if is_stop {
        let v: Vec<Token> = Vec::new();
        proof {
            assert(v.deep_view() =~= Seq::<TokenModel>::empty());
        }
        return Result::Ok((v, i));
    }
    let opens = match &toks[i].token {
        Token::Punct(Punct::LeftParen) => true,
        Token::Punct(Punct::LeftBracket) => true,
        Token::Punct(Punct::LeftBrace) => true,
        _ => false,
    };
    let closes = match &toks[i].token {
        Token::Punct(Punct::RightParen) => true,
        Token::Punct(Punct::RightBracket) => true,
        Token::Punct(Punct::RightBrace) => true,
        _ => false,
    };
    let new_depth: usize = if opens {
        depth + 1
    } else if closes {
        if depth == 0 {
            return Result::Err(make_syntax_error(toks, i));
        }
        depth - 1
    } else {
        depth
    };
    match parse_other_run(toks, i + 1, new_depth) {
        Result::Ok((run, j)) => {
            let t = toks[i].token.dup();
            let ghost tm = t.deep_view();
            let ghost rm = run.deep_view();
            let mut v: Vec<Token> = Vec::new();
            v.push(t);
            let mut rest = run;
            v.append(&mut rest);
            proof {
                assert(v.deep_view() =~= seq![tm] + rm);
            }
            Result::Ok((v, j))
        },
        Result::Err(e) => Result::Err(e),
    }
}

/// Parses a catch-all extended attribute at offset `i`.
pub open spec fn spec_parse_other_attr(toks: Seq<PosTokenModel>, i: int) -> Result<
    (ExtendedAttributeModel, int),
    SyntaxErrorModel,
>
    decreases toks.len() - i, 7int,
{
    match spec_parse_other_run(toks, i, 0) {
        Result::Ok((run, j)) => Result::Ok((ExtendedAttributeModel::Other(run), j)),
        Result::Err(e) => Result::Err(e),
    }
}

fn parse_other_attr(toks: &Vec<PosToken>, i: usize) -> (r: Result<
    (ExtendedAttribute, usize),
    SyntaxError,
>)
    requires
        i <= toks@.len(),
    ensures
        parse_res_matches(r, spec_parse_other_attr(toks.deep_view(), i as int)),
        r matches Ok(p) ==> i <= p.1 <= toks@.len(),
        r matches Ok(p) && p.1 == i ==> (toks.deep_view()[i as int].token == TokenModel::Punct(
            Punct::Comma,
        ) || toks.deep_view()[i as int].token == TokenModel::Punct(Punct::RightBracket)),
    decreases toks@.len() - i, 7int,
{
    match parse_other_run(toks, i, 0) {
        Result::Ok((run, j)) => Result::Ok((ExtendedAttribute::Other(run), j)),
        Result::Err(e) => Result::Err(e),
    }
}

/// Parses one extended attribute at offset `i`: `Name`, `Name(arguments)`,
/// `Lhs=Rhs`, or a catch-all token run.
pub open spec fn spec_parse_ext_attr(toks: Seq<PosTokenModel>, i: int) -> Result<
    (ExtendedAttributeModel, int),
    SyntaxErrorModel,
>
    decreases toks.len() - i, 8int,
{
    if !(0 <= i < toks.len()) {
        Result::Err(syntax_error_at(toks, i))
    } else {
        match toks[i].token {
            TokenModel::Identifier(name) => if i + 1 < toks.len() && toks[i + 1].token
                == TokenModel::Punct(Punct::LeftParen) {
                match spec_parse_args(toks, i + 2) {
                    Result::Ok((args, j)) => Result::Ok(
                        (ExtendedAttributeModel::ArgumentList { name, arguments: args }, j),
                    ),
                    Result::Err(e) => Result::Err(e),
                }
            } else if i + 1 < toks.len() && (toks[i + 1].token == TokenModel::Punct(Punct::Comma)
                || toks[i + 1].token == TokenModel::Punct(Punct::RightBracket)) {
                Result::Ok((ExtendedAttributeModel::NoArguments(name), i + 1))
            } else if i + 1 < toks.len() && toks[i + 1].token == TokenModel::Punct(Punct::Equals)
                && i + 3 < toks.len() && (toks[i + 2].token matches TokenModel::Identifier(_))
                && (toks[i + 3].token == TokenModel::Punct(Punct::Comma) || toks[i + 3].token
                == TokenModel::Punct(Punct::RightBracket)) {
                match toks[i + 2].token {
                    TokenModel::Identifier(rhs) => Result::Ok(
                        (ExtendedAttributeModel::IdentifierWithRhs { lhs: name, rhs }, i + 3),
                    ),
                    _ => Result::Err(syntax_error_at(toks, i + 2)),
                }
            } else {
                spec_parse_other_attr(toks, i)
            },
            TokenModel::Punct(Punct::Comma) => Result::Err(syntax_error_at(toks, i)),
            TokenModel::Punct(Punct::RightBracket) => Result::Err(syntax_error_at(toks, i)),
            _ => spec_parse_other_attr(toks, i),
        }
    }
}

fn parse_ext_attr(toks: &Vec<PosToken>, i: usize) -> (r: Result<
    (ExtendedAttribute, usize),
    SyntaxError,
>)
    requires
        i <= toks@.len(),
    ensures
        parse_res_matches(r, spec_parse_ext_attr(toks.deep_view(), i as int)),
        r matches Ok(p) ==> i < p.1 <= toks@.len(),
    decreases toks@.len() - i, 8int,
{
    if i >= toks.len() {
        return Result::Err(make_syntax_error(toks, i));
    }
    let is_ident = match &toks[i].token {
        Token::Identifier(_) => true,
        _ => false,
    };
    if is_ident {
        let name = match &toks[i].token {
            Token::Identifier(s) => s.clone(),
            _ => String::new(),
        };
        let next_is_lparen = if i + 1 < toks.len() {
            match &toks[i + 1].token {
                Token::Punct(Punct::LeftParen) => true,
                _ => false,
            }
        } else {
            false
        };
        let next_is_sep = if i + 1 < toks.len() {
            match &toks[i + 1].token {
                Token::Punct(Punct::Comma) => true,
                Token::Punct(Punct::RightBracket) => true,
                _ => false,
            }
        } else {
            false
        };
        if next_is_lparen {
            match parse_args(toks, i + 2) {
                Result::Ok((args, j)) => {
                    return Result::Ok(
                        (ExtendedAttribute::ArgumentList { name, arguments: args }, j),
                    );
                },
                Result::Err(e) => {
                    return Result::Err(e);
                },
            }
        }
        if next_is_sep {
            return Result::Ok((ExtendedAttribute::NoArguments(name), i + 1));
        }
        let next_is_equals = if i + 1 < toks.len() {
            match &toks[i + 1].token {
                Token::Punct(Punct::Equals) => true,
                _ => false,
            }
        } else {
            false
        };
        if next_is_equals && i + 2 < toks.len() && i + 3 < toks.len() {
            let rhs_is_ident = match &toks[i + 2].token {
                Token::Identifier(_) => true,
                _ => false,
            };
            let after_is_sep = match &toks[i + 3].token {
                Token::Punct(Punct::Comma) => true,
                Token::Punct(Punct::RightBracket) => true,
                _ => false,
            };
            if rhs_is_ident && after_is_sep {
                let rhs = match &toks[i + 2].token {
                    Token::Identifier(s) => s.clone(),
                    _ => String::new(),
                };
                return Result::Ok(
                    (ExtendedAttribute::IdentifierWithRhs { lhs: name, rhs }, i + 3),
                );
            }
        }
        return parse_other_attr(toks, i);
    }
    let is_sep = match &toks[i].token {
        Token::Punct(Punct::Comma) => true,
        Token::Punct(Punct::RightBracket) => true,
        _ => false,
    };
    if is_sep {
        return Result::Err(make_syntax_error(toks, i));
    }
    parse_other_attr(toks, i)
}

/// Parses the attributes inside a `[` `]` list from offset `i` (just after
/// the `[`); consumes the closing `]`.
pub open spec fn spec_parse_ext_attr_items(toks: Seq<PosTokenModel>, i: int) -> Result<
    (Seq<ExtendedAttributeModel>, int),
    SyntaxErrorModel,
>
    decreases toks.len() - i, 9int,
{
    match spec_parse_ext_attr(toks, i) {
        Result::Ok((a, j)) => if i < j <= toks.len() {
            if j < toks.len() && toks[j].token == TokenModel::Punct(Punct::Comma) {
                match spec_parse_ext_attr_items(toks, j + 1) {
                    Result::Ok((rest, k)) => Result::Ok((seq![a] + rest, k)),
                    Result::Err(e) => Result::Err(e),
                }
            } else if j < toks.len() && toks[j].token == TokenModel::Punct(Punct::RightBracket) {
                Result::Ok((seq![a], j + 1))
            } else {
                Result::Err(syntax_error_at(toks, j))
            }
        } else {
            Result::Err(syntax_error_at(toks, i))
        },
        Result::Err(e) => Result::Err(e),
    }
}

fn parse_ext_attr_items(toks: &Vec<PosToken>, i: usize) -> (r: Result<
    (Vec<ExtendedAttribute>, usize),
    SyntaxError,
>)
    requires
        i <= toks@.len(),
    ensures
        parse_res_matches(r, spec_parse_ext_attr_items(toks.deep_view(), i as int)),
        r matches Ok(p) ==> i < p.1 <= toks@.len(),
    decreases toks@.len() - i, 9int,
{
    match parse_ext_attr(toks, i) {
        Result::Ok((a, j)) => {
            let is_comma = if j < toks.len() {
                match &toks[j].token {
                    Token::Punct(Punct::Comma) => true,
                    _ => false,
                }
            } else {
                false
            };
            let is_close = if j < toks.len() {
                match &toks[j].token {
                    Token::Punct(Punct::RightBracket) => true,
                    _ => false,
                }
            } else {
                false
            };
            if is_comma {
                match parse_ext_attr_items(toks, j + 1) {
                    Result::Ok((rest, k)) => {
                        let ghost am = a.deep_view();
                        let ghost rm = rest.deep_view();
                        let mut v: Vec<ExtendedAttribute> = Vec::new();
                        v.push(a);
                        let mut rest2 = rest;
                        v.append(&mut rest2);
                        proof {
                            assert(v.deep_view() =~= seq![am] + rm);
                        }
                        Result::Ok((v, k))
                    },
                    Result::Err(e) => Result::Err(e),
                }
            } else if is_close {
                let ghost am = a.deep_view();
                let mut v: Vec<ExtendedAttribute> = Vec::new();
                v.push(a);
                proof {
                    assert(v.deep_view() =~= seq![am]);
                }
                Result::Ok((v, j + 1))
            } else {
                Result::Err(make_syntax_error(toks, j))
            }
        },
        Result::Err(e) => Result::Err(e),
    }
}

/// Parses an optional `[` `]` extended-attribute list at offset `i`. With no
/// `[` there, the empty list and `i` itself.
pub open spec fn spec_parse_ext_attr_list(toks: Seq<PosTokenModel>, i: int) -> Result<
    (Seq<ExtendedAttributeModel>, int),
    SyntaxErrorModel,
>
    decreases toks.len() - i, 10int,
{
    if 0 <= i < toks.len() && toks[i].token == TokenModel::Punct(Punct::LeftBracket) {
        spec_parse_ext_attr_items(toks, i + 1)
    } else {
        Result::Ok((Seq::empty(), i))
    }
}

fn parse_ext_attr_list(toks: &Vec<PosToken>, i: usize) -> (r: Result<
    (Vec<ExtendedAttribute>, usize),
    SyntaxError,
>)
    requires
        i <= toks@.len(),
    ensures
        parse_res_matches(r, spec_parse_ext_attr_list(toks.deep_view(), i as int)),
        r matches Ok(p) ==> i <= p.1 <= toks@.len(),
    decreases toks@.len() - i, 10int,
{
    if i < toks.len() {
        let is_open = match &toks[i].token {
            Token::Punct(Punct::LeftBracket) => true,
            _ => false,
        };
        if is_open {
            return parse_ext_attr_items(toks, i + 1);
        }
    }
    let v: Vec<ExtendedAttribute> = Vec::new();
    proof {
        assert(v.deep_view() =~= Seq::<ExtendedAttributeModel>::empty());
    }
    Result::Ok((v, i))
}

// ---------------------------------------------------------------------------
// Members
// ---------------------------------------------------------------------------

/// Parses the tail of an attribute member at offset `p` (just after the
/// `attribute` keyword): `Type Identifier ;`.
pub open spec fn spec_parse_attribute_tail(
    toks: Seq<PosTokenModel>,
    p: int,
    attrs: Seq<ExtendedAttributeModel>,
    readonly: bool,
) -> Result<(MemberModel, int), SyntaxErrorModel>
    decreases toks.len() - p, 13int,
{
    match spec_parse_type(toks, p) {
        Result::Ok((t, k)) => match spec_expect_ident(toks, k) {
            Result::Ok((name, k2)) => match spec_expect_punct(toks, k2, Punct::Semicolon) {
                Result::Ok(m) => Result::Ok(
                    (
                        MemberModel::Attribute(
                            AttributeModel { extended_attributes: attrs, readonly, ty: t, name },
                        ),
                        m,
                    ),
                ),
                Result::Err(e) => Result::Err(e),
            },
            Result::Err(e) => Result::Err(e),
        },
        Result::Err(e) => Result::Err(e),
    }
}

fn parse_attribute_tail(
    toks: &Vec<PosToken>,
    p: usize,
    attrs: Vec<ExtendedAttribute>,
    readonly: bool,
) -> (r: Result<(Member, usize), SyntaxError>)
    requires
        p <= toks@.len(),
    ensures
        parse_res_matches(
            r,
            spec_parse_attribute_tail(toks.deep_view(), p as int, attrs.deep_view(), readonly),
        ),
        r matches Ok(q) ==> p < q.1 <= toks@.len(),
{
    match parse_type(toks, p) {
        Result::Ok((t, k)) => match expect_ident(toks, k) {
            Result::Ok((name, k2)) => match expect_punct(toks, k2, Punct::Semicolon) {
                Result::Ok(m) => Result::Ok(
                    (
                        Member::Attribute(
                            Attribute { extended_attributes: attrs, readonly, ty: t, name },
                        ),
                        m,
                    ),
                ),
                Result::Err(e) => Result::Err(e),
            },
            Result::Err(e) => Result::Err(e),
        },
        Result::Err(e) => Result::Err(e),
    }
}

/// Parses the tail of a `const` member at offset `p` (just after `const`):
/// `Type Identifier = ConstValue ;`.
pub open spec fn spec_parse_const_tail(
    toks: Seq<PosTokenModel>,
    p: int,
    attrs: Seq<ExtendedAttributeModel>,
) -> Result<(MemberModel, int), SyntaxErrorModel>
    decreases toks.len() - p, 13int,
{
    match spec_parse_type(toks, p) {
        Result::Ok((t, k)) => match spec_expect_ident(toks, k) {
            Result::Ok((name, k2)) => match spec_expect_punct(toks, k2, Punct::Equals) {
                Result::Ok(k3) => match spec_parse_const_value(toks, k3) {
                    Result::Ok((v, k4)) => match spec_expect_punct(toks, k4, Punct::Semicolon) {
                        Result::Ok(m) => Result::Ok(
                            (
                                MemberModel::Const(
                                    ConstMemberModel {
                                        extended_attributes: attrs,
                                        ty: t,
                                        name,
                                        value: v,
                                    },
                                ),
                                m,
                            ),
                        ),
                        Result::Err(e) => Result::Err(e),
                    },
                    Result::Err(e) => Result::Err(e),
                },
                Result::Err(e) => Result::Err(e),
            },
            Result::Err(e) => Result::Err(e),
        },
        Result::Err(e) => Result::Err(e),
    }
}

fn parse_const_tail(toks: &Vec<PosToken>, p: usize, attrs: Vec<ExtendedAttribute>) -> (r: Result<
    (Member, usize),
    SyntaxError,
>)
    requires
        p <= toks@.len(),
    ensures
        parse_res_matches(
            r,
            spec_parse_const_tail(toks.deep_view(), p as int, attrs.deep_view()),
        ),
        r matches Ok(q) ==> p < q.1 <= toks@.len(),
{
    match parse_type(toks, p) {
        Result::Ok((t, k)) => match expect_ident(toks, k) {
            Result::Ok((name, k2)) => match expect_punct(toks, k2, Punct::Equals) {
                Result::Ok(k3) => match parse_const_value(toks, k3) {
                    Result::Ok((v, k4)) => match expect_punct(toks, k4, Punct::Semicolon) {
                        Result::Ok(m) => Result::Ok(
                            (
                                Member::Const(
                                    Const {
                                        extended_attributes: attrs,
                                        ty: t,
                                        name,
                                        value: v,
                                    },
                                ),
                                m,
                            ),
                        ),
                        Result::Err(e) => Result::Err(e),
                    },
                    Result::Err(e) => Result::Err(e),
                },
                Result::Err(e) => Result::Err(e),
            },
            Result::Err(e) => Result::Err(e),
        },
        Result::Err(e) => Result::Err(e),
    }
}

/// Parses the tail of a `required` dictionary field at offset `p` (just
/// after `required`): `Type Identifier [= ConstValue] ;`.
pub open spec fn spec_parse_field_tail(
    toks: Seq<PosTokenModel>,
    p: int,
    attrs: Seq<ExtendedAttributeModel>,
    required: bool,
) -> Result<(MemberModel, int), SyntaxErrorModel>
    decreases toks.len() - p, 13int,
{
    match spec_parse_type(toks, p) {
        Result::Ok((t, k)) => match spec_expect_ident(toks, k) {
            Result::Ok((name, k2)) => spec_parse_field_end(toks, k2, attrs, required, t, name),
            Result::Err(e) => Result::Err(e),
        },
        Result::Err(e) => Result::Err(e),
    }
}

/// Parses what ends a dictionary field at offset `k2`, after its name: an
/// optional `= ConstValue`, then `;`.
pub open spec fn spec_parse_field_end(
    toks: Seq<PosTokenModel>,
    k2: int,
    attrs: Seq<ExtendedAttributeModel>,
    required: bool,
    t: TypeModel,
    name: Seq<char>,
) -> Result<(MemberModel, int), SyntaxErrorModel> {
    if 0 <= k2 < toks.len() && toks[k2].token == TokenModel::Punct(Punct::Equals) {
        match spec_parse_const_value(toks, k2 + 1) {
            Result::Ok((v, k3)) => match spec_expect_punct(toks, k3, Punct::Semicolon) {
                Result::Ok(m) => Result::Ok(
                    (
                        MemberModel::Field(
                            FieldModel {
                                extended_attributes: attrs,
                                required,
                                ty: t,
                                name,
                                default: Option::Some(v),
                            },
                        ),
                        m,
                    ),
                ),
                Result::Err(e) => Result::Err(e),
            },
            Result::Err(e) => Result::Err(e),
        }
    } else {
        match spec_expect_punct(toks, k2, Punct::Semicolon) {
            Result::Ok(m) => Result::Ok(
                (
                    MemberModel::Field(
                        FieldModel {
                            extended_attributes: attrs,
                            required,
                            ty: t,
                            name,
                            default: Option::None,
                        },
                    ),
                    m,
                ),
            ),
            Result::Err(e) => Result::Err(e),
        }
    }
}

fn parse_field_end(
    toks: &Vec<PosToken>,
    k2: usize,
    attrs: Vec<ExtendedAttribute>,
    required: bool,
    t: Type,
    name: String,
) -> (r: Result<(Member, usize), SyntaxError>)
    requires
        k2 <= toks@.len(),
    ensures
        parse_res_matches(
            r,
            spec_parse_field_end(
                toks.deep_view(),
                k2 as int,
                attrs.deep_view(),
                required,
                t.deep_view(),
                name@,
            ),
        ),
        r matches Ok(q) ==> k2 < q.1 <= toks@.len(),
{
    let has_default = if k2 < toks.len() {
        match &toks[k2].token {
            Token::Punct(Punct::Equals) => true,
            _ => false,
        }
    } else {
        false
    };
    if has_default {
        match parse_const_value(toks, k2 + 1) {
            Result::Ok((v, k3)) => match expect_punct(toks, k3, Punct::Semicolon) {
                Result::Ok(m) => Result::Ok(
                    (
                        Member::Field(
                            Field {
                                extended_attributes: attrs,
                                required,
                                ty: t,
                                name,
                                default: Option::Some(v),
                            },
                        ),
                        m,
                    ),
                ),
                Result::Err(e) => Result::Err(e),
            },
            Result::Err(e) => Result::Err(e),
        }
    } else {
        match expect_punct(toks, k2, Punct::Semicolon) {
            Result::Ok(m) => Result::Ok(
                (
                    Member::Field(
                        Field {
                            extended_attributes: attrs,
                            required,
                            ty: t,
                            name,
                            default: Option::None,
                        },
                    ),
                    m,
                ),
            ),
            Result::Err(e) => Result::Err(e),
        }
    }
}

fn parse_field_tail(
    toks: &Vec<PosToken>,
    p: usize,
    attrs: Vec<ExtendedAttribute>,
    required: bool,
) -> (r: Result<(Member, usize), SyntaxError>)
    requires
        p <= toks@.len(),
    ensures
        parse_res_matches(
            r,
            spec_parse_field_tail(toks.deep_view(), p as int, attrs.deep_view(), required),
        ),
        r matches Ok(q) ==> p < q.1 <= toks@.len(),
{
    match parse_type(toks, p) {
        Result::Ok((t, k)) => match expect_ident(toks, k) {
            Result::Ok((name, k2)) => parse_field_end(toks, k2, attrs, required, t, name),
            Result::Err(e) => Result::Err(e),
        },
        Result::Err(e) => Result::Err(e),
    }
}

/// Parses a member that begins with a type at offset `j`: an operation
/// `Type Identifier ( Arguments ) ;` or a field `Type Identifier [= V] ;`.
pub open spec fn spec_parse_op_or_field(
    toks: Seq<PosTokenModel>,
    j: int,
    attrs: Seq<ExtendedAttributeModel>,
) -> Result<(MemberModel, int), SyntaxErrorModel>
    decreases toks.len() - j, 14int,
{
    match spec_parse_type(toks, j) {
        Result::Ok((t, k)) => match spec_expect_ident(toks, k) {
            Result::Ok((name, k2)) => if k2 < toks.len() && toks[k2].token == TokenModel::Punct(
                Punct::LeftParen,
            ) {
                match spec_parse_args(toks, k2 + 1) {
                    Result::Ok((args, k3)) => match spec_expect_punct(toks, k3, Punct::Semicolon) {
                        Result::Ok(m) => Result::Ok(
                            (
                                MemberModel::Operation(
                                    OperationModel {
                                        extended_attributes: attrs,
                                        return_type: t,
                                        name,
                                        arguments: args,
                                    },
                                ),
                                m,
                            ),
                        ),
                        Result::Err(e) => Result::Err(e),
                    },
                    Result::Err(e) => Result::Err(e),
                }
            } else {
                spec_parse_field_end(toks, k2, attrs, false, t, name)
            },
            Result::Err(e) => Result::Err(e),
        },
        Result::Err(e) => Result::Err(e),
    }
}

fn parse_op_or_field(toks: &Vec<PosToken>, j: usize, attrs: Vec<ExtendedAttribute>) -> (r: Result<
    (Member, usize),
    SyntaxError,
>)
    requires
        j <= toks@.len(),
    ensures
        parse_res_matches(
            r,
            spec_parse_op_or_field(toks.deep_view(), j as int, attrs.deep_view()),
        ),
        r matches Ok(q) ==> j < q.1 <= toks@.len(),
{
    match parse_type(toks, j) {
        Result::Ok((t, k)) => match expect_ident(toks, k) {
            Result::Ok((name, k2)) => {
                let is_paren = if k2 < toks.len() {
                    match &toks[k2].token {
                        Token::Punct(Punct::LeftParen) => true,
                        _ => false,
                    }
                } else {
                    false
                };
                if is_paren {
                    match parse_args(toks, k2 + 1) {
                        Result::Ok((args, k3)) => match expect_punct(toks, k3, Punct::Semicolon) {
                            Result::Ok(m) => Result::Ok(
                                (
                                    Member::Operation(
                                        Operation {
                                            extended_attributes: attrs,
                                            return_type: t,
                                            name,
                                            arguments: args,
                                        },
                                    ),
                                    m,
                                ),
                            ),
                            Result::Err(e) => Result::Err(e),
                        },
                        Result::Err(e) => Result::Err(e),
                    }
                } else {
                    parse_field_end(toks, k2, attrs, false, t, name)
                }
            },
            Result::Err(e) => Result::Err(e),
        },
        Result::Err(e) => Result::Err(e),
    }
}

/// Parses one member at offset `i`: its extended attributes, then a
/// constant, an attribute, a required field, an operation or a field.
pub open spec fn spec_parse_member(toks: Seq<PosTokenModel>, i: int) -> Result<
    (MemberModel, int),
    SyntaxErrorModel,
>
    decreases toks.len() - i, 15int,
{
    match spec_parse_ext_attr_list(toks, i) {
        Result::Ok((attrs, j)) => if i <= j <= toks.len() {
            if j >= toks.len() {
                Result::Err(syntax_error_at(toks, j))
            } else {
                match toks[j].token {
                    TokenModel::Keyword(Keyword::Const) => spec_parse_const_tail(
                        toks,
                        j + 1,
                        attrs,
                    ),
                    TokenModel::Keyword(Keyword::Readonly) => if j + 1 < toks.len() && toks[j
                        + 1].token == TokenModel::Keyword(Keyword::Attribute) {
                        spec_parse_attribute_tail(toks, j + 2, attrs, true)
                    } else {
                        Result::Err(syntax_error_at(toks, j + 1))
                    },
                    TokenModel::Keyword(Keyword::Attribute) => spec_parse_attribute_tail(
                        toks,
                        j + 1,
                        attrs,
                        false,
                    ),
                    TokenModel::Keyword(Keyword::Required) => spec_parse_field_tail(
                        toks,
                        j + 1,
                        attrs,
                        true,
                    ),
                    _ => spec_parse_op_or_field(toks, j, attrs),
                }
            }
        } else {
            Result::Err(syntax_error_at(toks, i))
        },
        Result::Err(e) => Result::Err(e),
    }
}

fn parse_member(toks: &Vec<PosToken>, i: usize) -> (r: Result<(Member, usize), SyntaxError>)
    requires
        i <= toks@.len(),
    ensures
        parse_res_matches(r, spec_parse_member(toks.deep_view(), i as int)),
        r matches Ok(q) ==> i < q.1 <= toks@.len(),
    decreases toks@.len() - i, 15int,
{
    match parse_ext_attr_list(toks, i) {
        Result::Ok((attrs, j)) => {
            if j >= toks.len() {
                return Result::Err(make_syntax_error(toks, j));
            }
            match &toks[j].token {
                Token::Keyword(Keyword::Const) => parse_const_tail(toks, j + 1, attrs),
                Token::Keyword(Keyword::Readonly) => {
                    let next_is_attribute = if j + 1 < toks.len() {
                        match &toks[j + 1].token {
                            Token::Keyword(Keyword::Attribute) => true,
                            _ => false,
                        }
                    } else {
                        false
                    };
                    if next_is_attribute {
                        parse_attribute_tail(toks, j + 2, attrs, true)
                    } else {
                        Result::Err(make_syntax_error(toks, j + 1))
                    }
                },
                Token::Keyword(Keyword::Attribute) => parse_attribute_tail(toks, j + 1, attrs, false),
                Token::Keyword(Keyword::Required) => parse_field_tail(toks, j + 1, attrs, true),
                _ => parse_op_or_field(toks, j, attrs),
            }
        },
        Result::Err(e) => Result::Err(e),
    }
}

/// Parses the members of a brace-delimited body from offset `i` on, in
/// declaration order; consumes the closing `}`.
pub open spec fn spec_parse_members(toks: Seq<PosTokenModel>, i: int) -> Result<
    (Seq<MemberModel>, int),
    SyntaxErrorModel,
>
    decreases toks.len() - i, 16int,
{
    if !(0 <= i < toks.len()) {
        Result::Err(syntax_error_at(toks, i))
    } else if toks[i].token == TokenModel::Punct(Punct::RightBrace) {
        Result::Ok((Seq::empty(), i + 1))
    } else {
        match spec_parse_member(toks, i) {
            Result::Ok((m, j)) => if i < j <= toks.len() {
                match spec_parse_members(toks, j) {
                    Result::Ok((rest, k)) => Result::Ok((seq![m] + rest, k)),
                    Result::Err(e) => Result::Err(e),
                }
            } else {
                Result::Err(syntax_error_at(toks, i))
            },
            Result::Err(e) => Result::Err(e),
        }
    }
}

fn parse_members(toks: &Vec<PosToken>, i: usize) -> (r: Result<(Vec<Member>, usize), SyntaxError>)
    requires
        i <= toks@.len(),
    ensures
        parse_res_matches(r, spec_parse_members(toks.deep_view(), i as int)),
        r matches Ok(q) ==> i < q.1 <= toks@.len(),
    decreases toks@.len() - i, 16int,
{
    if i >= toks.len() {
        return Result::Err(make_syntax_error(toks, i));
    }
    let is_close = match &toks[i].token {
        Token::Punct(Punct::RightBrace) => true,
        _ => false,
    };
    if is_close {
        let v: Vec<Member> = Vec::new();
        proof {
            assert(v.deep_view() =~= Seq::<MemberModel>::empty());
        }
        return Result::Ok((v, i + 1));
    }
    match parse_member(toks, i) {
        Result::Ok((m, j)) => match parse_members(toks, j) {
            Result::Ok((rest, k)) => {
                let ghost mm = m.deep_view();
                let ghost rm = rest.deep_view();
                let mut v: Vec<Member> = Vec::new();
                v.push(m);
                let mut rest2 = rest;
                v.append(&mut rest2);
                proof {
                    assert(v.deep_view() =~= seq![mm] + rm);
                }
                Result::Ok((v, k))
            },
            Result::Err(e) => Result::Err(e),
        },
        Result::Err(e) => Result::Err(e),
    }
}

// ---------------------------------------------------------------------------
// Definitions
// ---------------------------------------------------------------------------

/// Parses an optional `: Identifier` inheritance clause at offset `i`.
pub open spec fn spec_parse_inheritance(toks: Seq<PosTokenModel>, i: int) -> Result<
    (Option<Seq<char>>, int),
    SyntaxErrorModel,
> {
    if 0 <= i < toks.len() && toks[i].token == TokenModel::Punct(Punct::Colon) {
        match spec_expect_ident(toks, i + 1) {
            Result::Ok((name, j)) => Result::Ok((Option::Some(name), j)),
            Result::Err(e) => Result::Err(e),
        }
    } else {
        Result::Ok((Option::None, i))
    }
}

fn parse_inheritance(toks: &Vec<PosToken>, i: usize) -> (r: Result<
    (Option<String>, usize),
    SyntaxError,
>)
    requires
        i <= toks@.len(),
    ensures
        parse_res_matches(r, spec_parse_inheritance(toks.deep_view(), i as int)),
        r matches Ok(q) ==> i <= q.1 <= toks@.len(),
{
    if i < toks.len() {
        let is_colon = match &toks[i].token {
            Token::Punct(Punct::Colon) => true,
            _ => false,
        };
        if is_colon {
            return match expect_ident(toks, i + 1) {
                Result::Ok((name, j)) => Result::Ok((Option::Some(name), j)),
                Result::Err(e) => Result::Err(e),
            };
        }
    }
    Result::Ok((Option::None, i))
}

/// Parses the tail of an `interface` or `dictionary` definition at offset
/// `p` (just after its keyword): name, optional inheritance, braced member
/// list, terminating `;`.
pub open spec fn spec_parse_interface_like(
    toks: Seq<PosTokenModel>,
    p: int,
    attrs: Seq<ExtendedAttributeModel>,
    partial: bool,
    dict: bool,
) -> Result<(DefinitionModel, int), SyntaxErrorModel>
    decreases toks.len() - p, 17int,
{
    match spec_expect_ident(toks, p) {
        Result::Ok((name, p1)) => if p < p1 <= toks.len() {
            match spec_parse_inheritance(toks, p1) {
                Result::Ok((inherits, p2)) => if p1 <= p2 <= toks.len() {
                    match spec_expect_punct(toks, p2, Punct::LeftBrace) {
                        Result::Ok(p3) => if p2 < p3 <= toks.len() {
                            match spec_parse_members(toks, p3) {
                                Result::Ok((members, p4)) => match spec_expect_punct(
                                    toks,
                                    p4,
                                    Punct::Semicolon,
                                ) {
                                    Result::Ok(m) => Result::Ok(
                                        (
                                            if dict {
                                                DefinitionModel::Dictionary(
                                                    DictionaryModel {
                                                        extended_attributes: attrs,
                                                        partial,
                                                        name,
                                                        inherits,
                                                        members,
                                                    },
                                                )
                                            } else {
                                                DefinitionModel::Interface(
                                                    InterfaceModel {
                                                        extended_attributes: attrs,
                                                        partial,
                                                        name,
                                                        inherits,
                                                        members,
                                                    },
                                                )
                                            },
                                            m,
                                        ),
                                    ),
                                    Result::Err(e) => Result::Err(e),
                                },
                                Result::Err(e) => Result::Err(e),
                            }
                        } else {
                            Result::Err(syntax_error_at(toks, p2))
                        },
                        Result::Err(e) => Result::Err(e),
                    }
                } else {
                    Result::Err(syntax_error_at(toks, p1))
                },
                Result::Err(e) => Result::Err(e),
            }
        } else {
            Result::Err(syntax_error_at(toks, p))
        },
        Result::Err(e) => Result::Err(e),
    }
}

fn parse_interface_like(
    toks: &Vec<PosToken>,
    p: usize,
    attrs: Vec<ExtendedAttribute>,
    partial: bool,
    dict: bool,
) -> (r: Result<(Definition, usize), SyntaxError>)
    requires
        p <= toks@.len(),
    ensures
        parse_res_matches(
            r,
            spec_parse_interface_like(toks.deep_view(), p as int, attrs.deep_view(), partial, dict),
        ),
        r matches Ok(q) ==> p < q.1 <= toks@.len(),
    decreases toks@.len() - p, 17int,
{
    match expect_ident(toks, p) {
        Result::Ok((name, p1)) => match parse_inheritance(toks, p1) {
            Result::Ok((inherits, p2)) => match expect_punct(toks, p2, Punct::LeftBrace) {
                Result::Ok(p3) => match parse_members(toks, p3) {
                    Result::Ok((members, p4)) => match expect_punct(toks, p4, Punct::Semicolon) {
                        Result::Ok(m) => {
                            let d = if dict {
                                Definition::Dictionary(
                                    Dictionary {
                                        extended_attributes: attrs,
                                        partial,
                                        name,
                                        inherits,
                                        members,
                                    },
                                )
                            } else {
                                Definition::Interface(
                                    Interface {
                                        extended_attributes: attrs,
                                        partial,
                                        name,
                                        inherits,
                                        members,
                                    },
                                )
                            };
                            Result::Ok((d, m))
                        },
                        Result::Err(e) => Result::Err(e),
                    },
                    Result::Err(e) => Result::Err(e),
                },
                Result::Err(e) => Result::Err(e),
            },
            Result::Err(e) => Result::Err(e),
        },
        Result::Err(e) => Result::Err(e),
    }
}

/// Parses the tail of a `namespace` definition at offset `p`.
pub open spec fn spec_parse_namespace_tail(
    toks: Seq<PosTokenModel>,
    p: int,
    attrs: Seq<ExtendedAttributeModel>,
    partial: bool,
) -> Result<(DefinitionModel, int), SyntaxErrorModel>
    decreases toks.len() - p, 17int,
{
    match spec_expect_ident(toks, p) {
        Result::Ok((name, p1)) => match spec_expect_punct(toks, p1, Punct::LeftBrace) {
            Result::Ok(p2) => if p < p2 <= toks.len() {
                match spec_parse_members(toks, p2) {
                    Result::Ok((members, p3)) => match spec_expect_punct(
                        toks,
                        p3,
                        Punct::Semicolon,
                    ) {
                        Result::Ok(m) => Result::Ok(
                            (
                                DefinitionModel::Namespace(
                                    NamespaceModel {
                                        extended_attributes: attrs,
                                        partial,
                                        name,
                                        members,
                                    },
                                ),
                                m,
                            ),
                        ),
                        Result::Err(e) => Result::Err(e),
                    },
                    Result::Err(e) => Result::Err(e),
                }
            } else {
                Result::Err(syntax_error_at(toks, p))
            },
            Result::Err(e) => Result::Err(e),
        },
        Result::Err(e) => Result::Err(e),
    }
}

fn parse_namespace_tail(
    toks: &Vec<PosToken>,
    p: usize,
    attrs: Vec<ExtendedAttribute>,
    partial: bool,
) -> (r: Result<(Definition, usize), SyntaxError>)
    requires
        p <= toks@.len(),
    ensures
        parse_res_matches(
            r,
            spec_parse_namespace_tail(toks.deep_view(), p as int, attrs.deep_view(), partial),
        ),
        r matches Ok(q) ==> p < q.1 <= toks@.len(),
    decreases toks@.len() - p, 17int,
{
    match expect_ident(toks, p) {
        Result::Ok((name, p1)) => match expect_punct(toks, p1, Punct::LeftBrace) {
            Result::Ok(p2) => match parse_members(toks, p2) {
                Result::Ok((members, p3)) => match expect_punct(toks, p3, Punct::Semicolon) {
                    Result::Ok(m) => Result::Ok(
                        (
                            Definition::Namespace(
                                Namespace { extended_attributes: attrs, partial, name, members },
                            ),
                            m,
                        ),
                    ),
                    Result::Err(e) => Result::Err(e),
                },
                Result::Err(e) => Result::Err(e),
            },
            Result::Err(e) => Result::Err(e),
        },
        Result::Err(e) => Result::Err(e),
    }
}

/// Parses the string values of an `enum` body from offset `i` on; a
/// trailing comma is allowed; consumes the closing `}`.
pub open spec fn spec_parse_enum_values(toks: Seq<PosTokenModel>, i: int) -> Result<
    (Seq<Seq<char>>, int),
    SyntaxErrorModel,
>
    decreases toks.len() - i, 13int,
{
    if !(0 <= i < toks.len()) {
        Result::Err(syntax_error_at(toks, i))
    } else {
        match toks[i].token {
            TokenModel::StringLiteral(v) => if i + 1 < toks.len() && toks[i + 1].token
                == TokenModel::Punct(Punct::Comma) {
                if i + 2 < toks.len() && toks[i + 2].token == TokenModel::Punct(
                    Punct::RightBrace,
                ) {
                    Result::Ok((seq![v], i + 3))
                } else {
                    match spec_parse_enum_values(toks, i + 2) {
                        Result::Ok((rest, k)) => Result::Ok((seq![v] + rest, k)),
                        Result::Err(e) => Result::Err(e),
                    }
                }
            } else if i + 1 < toks.len() && toks[i + 1].token == TokenModel::Punct(
                Punct::RightBrace,
            ) {
                Result::Ok((seq![v], i + 2))
            } else {
                Result::Err(syntax_error_at(toks, i + 1))
            },
            _ => Result::Err(syntax_error_at(toks, i)),
        }
    }
}

fn parse_enum_values(toks: &Vec<PosToken>, i: usize) -> (r: Result<
    (Vec<String>, usize),
    SyntaxError,
>)
    requires
        i <= toks@.len(),
    ensures
        parse_res_matches(r, spec_parse_enum_values(toks.deep_view(), i as int)),
        r matches Ok(q) ==> i < q.1 <= toks@.len(),
    decreases toks@.len() - i, 13int,
{
    if i >= toks.len() {
        return Result::Err(make_syntax_error(toks, i));
    }
    let v: String = match &toks[i].token {
        Token::StringLiteral(s) => s.clone(),
        _ => {
            return Result::Err(make_syntax_error(toks, i));
        },
    };
    let next_is_comma = if i + 1 < toks.len() {
        match &toks[i + 1].token {
            Token::Punct(Punct::Comma) => true,
            _ => false,
        }
    } else {
        false
    };
    let next_is_close = if i + 1 < toks.len() {
        match &toks[i + 1].token {
            Token::Punct(Punct::RightBrace) => true,
            _ => false,
        }
    } else {
        false
    };
    if next_is_comma {
        let after_is_close = if i + 2 < toks.len() {
            match &toks[i + 2].token {
                Token::Punct(Punct::RightBrace) => true,
                _ => false,
            }
        } else {
            false
        };
        if after_is_close {
            let ghost vm = v@;
            let mut out: Vec<String> = Vec::new();
            out.push(v);
            proof {
                assert(out.deep_view() =~= seq![vm]);
            }
            Result::Ok((out, i + 3))
        } else {
            match parse_enum_values(toks, i + 2) {
                Result::Ok((rest, k)) => {
                    let ghost vm = v@;
                    let ghost rm = rest.deep_view();
                    let mut out: Vec<String> = Vec::new();
                    out.push(v);
                    let mut rest2 = rest;
                    out.append(&mut rest2);
                    proof {
                        assert(out.deep_view() =~= seq![vm] + rm);
                    }
                    Result::Ok((out, k))
                },
                Result::Err(e) => Result::Err(e),
            }
        }
    } else if next_is_close {
        let ghost vm = v@;
        let mut out: Vec<String> = Vec::new();
        out.push(v);
        proof {
            assert(out.deep_view() =~= seq![vm]);
        }
        Result::Ok((out, i + 2))
    } else {
        Result::Err(make_syntax_error(toks, i + 1))
    }
}

/// Parses the tail of an `enum` definition at offset `p`.
pub open spec fn spec_parse_enum_tail(
    toks: Seq<PosTokenModel>,
    p: int,
    attrs: Seq<ExtendedAttributeModel>,
) -> Result<(DefinitionModel, int), SyntaxErrorModel>
    decreases toks.len() - p, 17int,
{
    match spec_expect_ident(toks, p) {
        Result::Ok((name, p1)) => match spec_expect_punct(toks, p1, Punct::LeftBrace) {
            Result::Ok(p2) => if p < p2 <= toks.len() {
                match spec_parse_enum_values(toks, p2) {
                    Result::Ok((values, p3)) => match spec_expect_punct(
                        toks,
                        p3,
                        Punct::Semicolon,
                    ) {
                        Result::Ok(m) => Result::Ok(
                            (
                                DefinitionModel::Enum(
                                    EnumModel { extended_attributes: attrs, name, values },
                                ),
                                m,
                            ),
                        ),
                        Result::Err(e) => Result::Err(e),
                    },
                    Result::Err(e) => Result::Err(e),
                }
            } else {
                Result::Err(syntax_error_at(toks, p))
            },
            Result::Err(e) => Result::Err(e),
        },
        Result::Err(e) => Result::Err(e),
    }
}

fn parse_enum_tail(toks: &Vec<PosToken>, p: usize, attrs: Vec<ExtendedAttribute>) -> (r: Result<
    (Definition, usize),
    SyntaxError,
>)
    requires
        p <= toks@.len(),
    ensures
        parse_res_matches(r, spec_parse_enum_tail(toks.deep_view(), p as int, attrs.deep_view())),
        r matches Ok(q) ==> p < q.1 <= toks@.len(),
    decreases toks@.len() - p, 17int,
{
    match expect_ident(toks, p) {
        Result::Ok((name, p1)) => match expect_punct(toks, p1, Punct::LeftBrace) {
            Result::Ok(p2) => match parse_enum_values(toks, p2) {
                Result::Ok((values, p3)) => match expect_punct(toks, p3, Punct::Semicolon) {
                    Result::Ok(m) => Result::Ok(
                        (
                            Definition::Enum(
                                Enum { extended_attributes: attrs, name, values },
                            ),
                            m,
                        ),
                    ),
                    Result::Err(e) => Result::Err(e),
                },
                Result::Err(e) => Result::Err(e),
            },
            Result::Err(e) => Result::Err(e),
        },
        Result::Err(e) => Result::Err(e),
    }
}

/// Parses the tail of a `typedef` definition at offset `p`:
/// `Type Identifier ;`.
pub open spec fn spec_parse_typedef_tail(
    toks: Seq<PosTokenModel>,
    p: int,
    attrs: Seq<ExtendedAttributeModel>,
) -> Result<(DefinitionModel, int), SyntaxErrorModel>
    decreases toks.len() - p, 17int,
{
    match spec_parse_type(toks, p) {
        Result::Ok((t, k)) => match spec_expect_ident(toks, k) {
            Result::Ok((name, k2)) => match spec_expect_punct(toks, k2, Punct::Semicolon) {
                Result::Ok(m) => Result::Ok(
                    (
                        DefinitionModel::Typedef(
                            TypedefModel { extended_attributes: attrs, ty: t, name },
                        ),
                        m,
                    ),
                ),
                Result::Err(e) => Result::Err(e),
            },
            Result::Err(e) => Result::Err(e),
        },
        Result::Err(e) => Result::Err(e),
    }
}

fn parse_typedef_tail(toks: &Vec<PosToken>, p: usize, attrs: Vec<ExtendedAttribute>) -> (r: Result<
    (Definition, usize),
    SyntaxError,
>)
    requires
        p <= toks@.len(),
    ensures
        parse_res_matches(
            r,
            spec_parse_typedef_tail(toks.deep_view(), p as int, attrs.deep_view()),
        ),
        r matches Ok(q) ==> p < q.1 <= toks@.len(),
    decreases toks@.len() - p, 17int,
{
    match parse_type(toks, p) {
        Result::Ok((t, k)) => match expect_ident(toks, k) {
            Result::Ok((name, k2)) => match expect_punct(toks, k2, Punct::Semicolon) {
                Result::Ok(m) => Result::Ok(
                    (
                        Definition::Typedef(
                            Typedef { extended_attributes: attrs, ty: t, name },
                        ),
                        m,
                    ),
                ),
                Result::Err(e) => Result::Err(e),
            },
            Result::Err(e) => Result::Err(e),
        },
        Result::Err(e) => Result::Err(e),
    }
}

/// Parses the tail of a `callback` definition at offset `p`:
/// `Identifier = ReturnType ( Arguments ) ;`.
pub open spec fn spec_parse_callback_tail(
    toks: Seq<PosTokenModel>,
    p: int,
    attrs: Seq<ExtendedAttributeModel>,
) -> Result<(DefinitionModel, int), SyntaxErrorModel>
    decreases toks.len() - p, 17int,
{
    match spec_expect_ident(toks, p) {
        Result::Ok((name, p1)) => match spec_expect_punct(toks, p1, Punct::Equals) {
            Result::Ok(p2) => if p < p2 <= toks.len() {
                match spec_parse_type(toks, p2) {
                    Result::Ok((t, k)) => match spec_expect_punct(toks, k, Punct::LeftParen) {
                        Result::Ok(k2) => if p2 < k2 <= toks.len() {
                            match spec_parse_args(toks, k2) {
                                Result::Ok((args, k3)) => match spec_expect_punct(
                                    toks,
                                    k3,
                                    Punct::Semicolon,
                                ) {
                                    Result::Ok(m) => Result::Ok(
                                        (
                                            DefinitionModel::Callback(
                                                CallbackModel {
                                                    extended_attributes: attrs,
                                                    name,
                                                    return_type: t,
                                                    arguments: args,
                                                },
                                            ),
                                            m,
                                        ),
                                    ),
                                    Result::Err(e) => Result::Err(e),
                                },
                                Result::Err(e) => Result::Err(e),
                            }
                        } else {
                            Result::Err(syntax_error_at(toks, p2))
                        },
                        Result::Err(e) => Result::Err(e),
                    },
                    Result::Err(e) => Result::Err(e),
                }
            } else {
                Result::Err(syntax_error_at(toks, p))
            },
            Result::Err(e) => Result::Err(e),
        },
        Result::Err(e) => Result::Err(e),
    }
}

fn parse_callback_tail(toks: &Vec<PosToken>, p: usize, attrs: Vec<ExtendedAttribute>) -> (r:
    Result<(Definition, usize), SyntaxError>)
    requires
        p <= toks@.len(),
    ensures
        parse_res_matches(
            r,
            spec_parse_callback_tail(toks.deep_view(), p as int, attrs.deep_view()),
        ),
        r matches Ok(q) ==> p < q.1 <= toks@.len(),
    decreases toks@.len() - p, 17int,
{
    match expect_ident(toks, p) {
        Result::Ok((name, p1)) => match expect_punct(toks, p1, Punct::Equals) {
            Result::Ok(p2) => match parse_type(toks, p2) {
                Result::Ok((t, k)) => match expect_punct(toks, k, Punct::LeftParen) {
                    Result::Ok(k2) => match parse_args(toks, k2) {
                        Result::Ok((args, k3)) => match expect_punct(toks, k3, Punct::Semicolon) {
                            Result::Ok(m) => Result::Ok(
                                (
                                    Definition::Callback(
                                        Callback {
                                            extended_attributes: attrs,
                                            name,
                                            return_type: t,
                                            arguments: args,
                                        },
                                    ),
                                    m,
                                ),
                            ),
                            Result::Err(e) => Result::Err(e),
                        },
                        Result::Err(e) => Result::Err(e),
                    },
                    Result::Err(e) => Result::Err(e),
                },
                Result::Err(e) => Result::Err(e),
            },
            Result::Err(e) => Result::Err(e),
        },
        Result::Err(e) => Result::Err(e),
    }
}

/// Parses the tail of an `A implements B;` or `A includes B;` statement:
/// `a` is the left-hand name, `p` stands just after the middle keyword.
pub open spec fn spec_parse_relation_tail(
    toks: Seq<PosTokenModel>,
    p: int,
    attrs: Seq<ExtendedAttributeModel>,
    a: Seq<char>,
    includes: bool,
) -> Result<(DefinitionModel, int), SyntaxErrorModel> {
    match spec_expect_ident(toks, p) {
        Result::Ok((b, p1)) => match spec_expect_punct(toks, p1, Punct::Semicolon) {
            Result::Ok(m) => Result::Ok(
                (
                    if includes {
                        DefinitionModel::Includes(
                            IncludesModel { extended_attributes: attrs, includer: a, included: b },
                        )
                    } else {
                        DefinitionModel::Implements(
                            ImplementsModel {
                                extended_attributes: attrs,
                                implementor: a,
                                implemented: b,
                            },
                        )
                    },
                    m,
                ),
            ),
            Result::Err(e) => Result::Err(e),
        },
        Result::Err(e) => Result::Err(e),
    }
}

fn parse_relation_tail(
    toks: &Vec<PosToken>,
    p: usize,
    attrs: Vec<ExtendedAttribute>,
    a: String,
    includes: bool,
) -> (r: Result<(Definition, usize), SyntaxError>)
    requires
        p <= toks@.len(),
    ensures
        parse_res_matches(
            r,
            spec_parse_relation_tail(toks.deep_view(), p as int, attrs.deep_view(), a@, includes),
        ),
        r matches Ok(q) ==> p < q.1 <= toks@.len(),
{
    match expect_ident(toks, p) {
        Result::Ok((b, p1)) => match expect_punct(toks, p1, Punct::Semicolon) {
            Result::Ok(m) => {
                let d = if includes {
                    Definition::Includes(
                        IncludesStatement {
                            extended_attributes: attrs,
                            includer: a,
                            included: b,
                        },
                    )
                } else {
                    Definition::Implements(
                        ImplementsStatement {
                            extended_attributes: attrs,
                            implementor: a,
                            implemented: b,
                        },
                    )
                };
                Result::Ok((d, m))
            },
            Result::Err(e) => Result::Err(e),
        },
        Result::Err(e) => Result::Err(e),
    }
}

/// Parses the kind-specific part of a definition at offset `j`, after its
/// extended attributes.
pub open spec fn spec_parse_definition_kind(
    toks: Seq<PosTokenModel>,
    j: int,
    attrs: Seq<ExtendedAttributeModel>,
) -> Result<(DefinitionModel, int), SyntaxErrorModel>
    decreases toks.len() - j, 18int,
{
    if !(0 <= j < toks.len()) {
        Result::Err(syntax_error_at(toks, j))
    } else {
        match toks[j].token {
            TokenModel::Keyword(Keyword::Partial) => if j + 1 < toks.len() {
                match toks[j + 1].token {
                    TokenModel::Keyword(Keyword::Interface) => spec_parse_interface_like(
                        toks,
                        j + 2,
                        attrs,
                        true,
                        false,
                    ),
                    TokenModel::Keyword(Keyword::Dictionary) => spec_parse_interface_like(
                        toks,
                        j + 2,
                        attrs,
                        true,
                        true,
                    ),
                    TokenModel::Keyword(Keyword::Namespace) => spec_parse_namespace_tail(
                        toks,
                        j + 2,
                        attrs,
                        true,
                    ),
                    _ => Result::Err(syntax_error_at(toks, j + 1)),
                }
            } else {
                Result::Err(syntax_error_at(toks, j + 1))
            },
            TokenModel::Keyword(Keyword::Interface) => spec_parse_interface_like(
                toks,
                j + 1,
                attrs,
                false,
                false,
            ),
            TokenModel::Keyword(Keyword::Dictionary) => spec_parse_interface_like(
                toks,
                j + 1,
                attrs,
                false,
                true,
            ),
            TokenModel::Keyword(Keyword::Namespace) => spec_parse_namespace_tail(
                toks,
                j + 1,
                attrs,
                false,
            ),
            TokenModel::Keyword(Keyword::Enum) => spec_parse_enum_tail(toks, j + 1, attrs),
            TokenModel::Keyword(Keyword::Typedef) => spec_parse_typedef_tail(toks, j + 1, attrs),
            TokenModel::Keyword(Keyword::Callback) => spec_parse_callback_tail(toks, j + 1, attrs),
            TokenModel::Identifier(a) => if j + 1 < toks.len() {
                match toks[j + 1].token {
                    TokenModel::Keyword(Keyword::Implements) => spec_parse_relation_tail(
                        toks,
                        j + 2,
                        attrs,
                        a,
                        false,
                    ),
                    TokenModel::Keyword(Keyword::Includes) => spec_parse_relation_tail(
                        toks,
                        j + 2,
                        attrs,
                        a,
                        true,
                    ),
                    _ => Result::Err(syntax_error_at(toks, j + 1)),
                }
            } else {
                Result::Err(syntax_error_at(toks, j + 1))
            },
            _ => Result::Err(syntax_error_at(toks, j)),
        }
    }
}

fn parse_definition_kind(toks: &Vec<PosToken>, j: usize, attrs: Vec<ExtendedAttribute>) -> (r:
    Result<(Definition, usize), SyntaxError>)
    requires
        j <= toks@.len(),
    ensures
        parse_res_matches(
            r,
            spec_parse_definition_kind(toks.deep_view(), j as int, attrs.deep_view()),
        ),
        r matches Ok(q) ==> j < q.1 <= toks@.len(),
    decreases toks@.len() - j, 18int,
{
    if j >= toks.len() {
        return Result::Err(make_syntax_error(toks, j));
    }
    match &toks[j].token {
        Token::Keyword(Keyword::Partial) => {
            if j + 1 < toks.len() {
                match &toks[j + 1].token {
                    Token::Keyword(Keyword::Interface) => {
                        return parse_interface_like(toks, j + 2, attrs, true, false);
                    },
                    Token::Keyword(Keyword::Dictionary) => {
                        return parse_interface_like(toks, j + 2, attrs, true, true);
                    },
                    Token::Keyword(Keyword::Namespace) => {
                        return parse_namespace_tail(toks, j + 2, attrs, true);
                    },
                    _ => {},
                }
            }
            Result::Err(make_syntax_error(toks, j + 1))
        },
        Token::Keyword(Keyword::Interface) => parse_interface_like(toks, j + 1, attrs, false, false),
        Token::Keyword(Keyword::Dictionary) => parse_interface_like(toks, j + 1, attrs, false, true),
        Token::Keyword(Keyword::Namespace) => parse_namespace_tail(toks, j + 1, attrs, false),
        Token::Keyword(Keyword::Enum) => parse_enum_tail(toks, j + 1, attrs),
        Token::Keyword(Keyword::Typedef) => parse_typedef_tail(toks, j + 1, attrs),
        Token::Keyword(Keyword::Callback) => parse_callback_tail(toks, j + 1, attrs),
        Token::Identifier(a) => {
            let name = a.clone();
            if j + 1 < toks.len() {
                match &toks[j + 1].token {
                    Token::Keyword(Keyword::Implements) => {
                        return parse_relation_tail(toks, j + 2, attrs, name, false);
                    },
                    Token::Keyword(Keyword::Includes) => {
                        return parse_relation_tail(toks, j + 2, attrs, name, true);
                    },
                    _ => {},
                }
            }
            Result::Err(make_syntax_error(toks, j + 1))
        },
        _ => Result::Err(make_syntax_error(toks, j)),
    }
}

/// Parses one definition at offset `i`: its extended attributes, then its
/// kind.
pub open spec fn spec_parse_definition(toks: Seq<PosTokenModel>, i: int) -> Result<
    (DefinitionModel, int),
    SyntaxErrorModel,
>
    decreases toks.len() - i, 19int,
{
    match spec_parse_ext_attr_list(toks, i) {
        Result::Ok((attrs, j)) => if i <= j <= toks.len() {
            spec_parse_definition_kind(toks, j, attrs)
        } else {
            Result::Err(syntax_error_at(toks, i))
        },
        Result::Err(e) => Result::Err(e),
    }
}

fn parse_definition(toks: &Vec<PosToken>, i: usize) -> (r: Result<(Definition, usize), SyntaxError>)
    requires
        i <= toks@.len(),
    ensures
        parse_res_matches(r, spec_parse_definition(toks.deep_view(), i as int)),
        r matches Ok(q) ==> i < q.1 <= toks@.len(),
    decreases toks@.len() - i, 19int,
{
    match parse_ext_attr_list(toks, i) {
        Result::Ok((attrs, j)) => parse_definition_kind(toks, j, attrs),
        Result::Err(e) => Result::Err(e),
    }
}

/// Parses all definitions from offset `i` to the end of the tokens, in
/// source order.
pub open spec fn spec_parse_definitions(toks: Seq<PosTokenModel>, i: int) -> Result<
    (Seq<DefinitionModel>, int),
    SyntaxErrorModel,
>
    decreases toks.len() - i, 20int,
{
    if i >= toks.len() {
        Result::Ok((Seq::empty(), i))
    } else {
        match spec_parse_definition(toks, i) {
            Result::Ok((d, j)) => if i < j <= toks.len() {
                match spec_parse_definitions(toks, j) {
                    Result::Ok((rest, k)) => Result::Ok((seq![d] + rest, k)),
                    Result::Err(e) => Result::Err(e),
                }
            } else {
                Result::Err(syntax_error_at(toks, i))
            },
            Result::Err(e) => Result::Err(e),
        }
    }
}

fn parse_definitions(toks: &Vec<PosToken>, i: usize) -> (r: Result<
    (Vec<Definition>, usize),
    SyntaxError,
>)
    requires
        i <= toks@.len(),
    ensures
        parse_res_matches(r, spec_parse_definitions(toks.deep_view(), i as int)),
        r matches Ok(q) ==> i <= q.1 <= toks@.len(),
    decreases toks@.len() - i, 20int,
{
    if i >= toks.len() {
        let v: Vec<Definition> = Vec::new();
        proof {
            assert(v.deep_view() =~= Seq::<DefinitionModel>::empty());
        }
        return Result::Ok((v, i));
    }
    match parse_definition(toks, i) {
        Result::Ok((d, j)) => match parse_definitions(toks, j) {
            Result::Ok((rest, k)) => {
                let ghost dm = d.deep_view();
                let ghost rm = rest.deep_view();
                let mut v: Vec<Definition> = Vec::new();
                v.push(d);
                let mut rest2 = rest;
                v.append(&mut rest2);
                proof {
                    assert(v.deep_view() =~= seq![dm] + rm);
                }
                Result::Ok((v, k))
            },
            Result::Err(e) => Result::Err(e),
        },
        Result::Err(e) => Result::Err(e),
    }
}

// ---------------------------------------------------------------------------
// The public entry point
// ---------------------------------------------------------------------------

/// The model of parsing a whole source text: lex it, then reduce the tokens
/// to definitions. A failed lex yields its `Lexical` error; a failed
/// reduction its `Syntax` error.
pub open spec fn spec_parse(s: Seq<char>) -> Result<Seq<DefinitionModel>, ParseErrorModel> {
    match spec_lex(s) {
        Result::Ok(toks) => match spec_parse_definitions(toks, 0) {
            Result::Ok((defs, j)) => Result::Ok(defs),
            Result::Err(e) => Result::Err(ParseErrorModel::Syntax(e)),
        },
        Result::Err(e) => Result::Err(ParseErrorModel::Lexical(e)),
    }
}

/// What a parse returns: the definitions in source order, or the first
/// error.
pub type ParseResult = Result<AST, ParseError>;

/// Whether an executable parse result agrees with the model's.
pub open spec fn parse_result_matches(
    r: ParseResult,
    m: Result<Seq<DefinitionModel>, ParseErrorModel>,
) -> bool {
    match (r, m) {
        (Result::Ok(defs), Result::Ok(dm)) => defs.deep_view() == dm,
        (Result::Err(e), Result::Err(em)) => e.deep_view() == em,
        _ => false,
    }
}

/// The parser. It holds no state: each `parse_string` call is independent.
#[derive(Clone, Copy, Debug, Default, Eq, Hash, PartialEq, Structural)]
pub struct Parser;

impl Parser {
    /// Creates a new parser.
    pub fn new() -> (p: Parser)
        ensures
            p == Parser,
    {
        Parser
    }

    /// Parses a WebIDL source text into its definitions, or the first
    /// lexical or syntax error. The result's model is exactly
    /// `spec_parse(input@)`: a pure function of the input text.
    pub fn parse_string(&self, input: &str) -> (r: ParseResult)
        ensures
            parse_result_matches(r, spec_parse(input@)),
    {
        match lex(input) {
            Result::Ok(toks) => match parse_definitions(&toks, 0) {
                Result::Ok((defs, _end)) => Result::Ok(defs),
                Result::Err(e) => Result::Err(ParseError::Syntax(e)),
            },
            Result::Err(e) => Result::Err(ParseError::Lexical(e)),
        }
    }
}

// ---------------------------------------------------------------------------
// Laws
// ---------------------------------------------------------------------------

/// Parsing is deterministic: any two results whose models both agree with
/// the same input's parse are the same definitions or the same error.
pub proof fn lemma_parse_deterministic(s: Seq<char>, r1: ParseResult, r2: ParseResult)
    requires
        parse_result_matches(r1, spec_parse(s)),
        parse_result_matches(r2, spec_parse(s)),
    ensures
        match (r1, r2) {
            (Result::Ok(a1), Result::Ok(a2)) => a1.deep_view() == a2.deep_view(),
            (Result::Err(e1), Result::Err(e2)) => e1.deep_view() == e2.deep_view(),
            _ => false,
        },
{
}

/// An input whose lexing yields no tokens at all — empty, or whitespace and
/// comments only — parses to the empty definition sequence, not an error.
pub proof fn lemma_trivia_parses_empty(s: Seq<char>)
    requires
        spec_lex(s) == Result::<Seq<PosTokenModel>, LexicalErrorModel>::Ok(
            Seq::<PosTokenModel>::empty(),
        ),
    ensures
        spec_parse(s) == Result::<Seq<DefinitionModel>, ParseErrorModel>::Ok(
            Seq::<DefinitionModel>::empty(),
        ),
{
    let toks = Seq::<PosTokenModel>::empty();
    assert(spec_parse_definitions(toks, 0) == Result::<(Seq<DefinitionModel>, int),
        SyntaxErrorModel,
    >::Ok((Seq::<DefinitionModel>::empty(), 0)));
}

/// A lexical failure — an invalid character, an unterminated string literal
/// or block comment — always surfaces as a `Lexical` error, never as a
/// `Syntax` error.
pub proof fn lemma_lex_failure_is_lexical(s: Seq<char>, e: LexicalErrorModel)
    requires
        spec_lex(s) == Result::<Seq<PosTokenModel>, LexicalErrorModel>::Err(e),
    ensures
        spec_parse(s) == Result::<Seq<DefinitionModel>, ParseErrorModel>::Err(
            ParseErrorModel::Lexical(e),
        ),
{
}

/// A successful reduction consumes the whole token stream: a parse never
/// succeeds while silently ignoring trailing tokens.
pub proof fn lemma_parse_consumes_all_tokens(
    toks: Seq<PosTokenModel>,
    i: int,
    defs: Seq<DefinitionModel>,
    j: int,
)
    requires
        0 <= i <= toks.len(),
        spec_parse_definitions(toks, i) == Result::<(Seq<DefinitionModel>, int),
            SyntaxErrorModel,
        >::Ok((defs, j)),
    ensures
        j == toks.len(),
    decreases toks.len() - i,
{
    if i < toks.len() {
        match spec_parse_definition(toks, i) {
            Result::Ok(p) => {
                if i < p.1 && p.1 <= toks.len() {
                    match spec_parse_definitions(toks, p.1) {
                        Result::Ok(q) => {
                            lemma_parse_consumes_all_tokens(toks, p.1, q.0, q.1);
                        },
                        Result::Err(_) => {},
                    }
                }
            },
            Result::Err(_) => {},
        }
    }
}

/// Once the whole input has lexed, a parse failure can only be a `Syntax`
/// error: a `Lexical` error never arises after lexing has succeeded.
pub proof fn lemma_lex_success_never_lexical(s: Seq<char>, toks: Seq<PosTokenModel>)
    requires
        spec_lex(s) == Result::<Seq<PosTokenModel>, LexicalErrorModel>::Ok(toks),
    ensures
        match spec_parse(s) {
            Result::Ok(_) => true,
            Result::Err(e) => e matches ParseErrorModel::Syntax(_),
        },
{
}

} // verus!
