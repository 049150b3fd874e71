//! The lexer: turns WebIDL source text into a sequence of tokens with
//! character-offset spans, or reports a `LexicalError` at the first invalid
//! lexeme.
//!
//! The executable lexer is mirrored by specification functions over the
//! input's character sequence (`lex_from`, `lex_step` and the scan helpers);
//! its contract states that the tokens it returns are exactly the model's.

use vstd::prelude::*;

verus! {

/// A WebIDL keyword.
#[derive(Clone, Copy, Debug, PartialEq, Eq, Structural)]
pub enum Keyword {
    Any,
    Attribute,
    Boolean,
    Byte,
    ByteString,
    Callback,
    Const,
    DOMString,
    Dictionary,
    Double,
    Enum,
    False,
    Float,
    FrozenArray,
    Implements,
    Includes,
    Interface,
    Long,
    Namespace,
    Null,
    Object,
    Octet,
    Or,
    Partial,
    Promise,
    Readonly,
    Required,
    Sequence,
    Short,
    True,
    Typedef,
    USVString,
    Unsigned,
    Void,
}

/// A punctuation token.
#[derive(Clone, Copy, Debug, PartialEq, Eq, Structural)]
pub enum Punct {
    LeftParen,
    RightParen,
    LeftBracket,
    RightBracket,
    LeftBrace,
    RightBrace,
    Semicolon,
    Colon,
    Comma,
    Equals,
    LessThan,
    GreaterThan,
    QuestionMark,
}

/// A token: its kind together with the text it carries. Literal tokens keep
/// the exact source lexeme; an identifier's leading underscore escape has
/// been stripped.
#[derive(Clone, Debug, PartialEq, Eq)]
pub enum Token {
    Keyword(Keyword),
    Punct(Punct),
    Identifier(String),
    StringLiteral(String),
    IntegerLiteral(String),
    FloatLiteral(String),
}

/// The mathematical model of a `Token`: the carried text as a `Seq<char>`.
pub enum TokenModel {
    Keyword(Keyword),
    Punct(Punct),
    Identifier(Seq<char>),
    StringLiteral(Seq<char>),
    IntegerLiteral(Seq<char>),
    FloatLiteral(Seq<char>),
}

impl DeepView for Token {
    type V = TokenModel;

    open spec fn deep_view(&self) -> TokenModel {
        match self {
            Token::Keyword(k) => TokenModel::Keyword(*k),
            Token::Punct(p) => TokenModel::Punct(*p),
            Token::Identifier(s) => TokenModel::Identifier(s@),
            Token::StringLiteral(s) => TokenModel::StringLiteral(s@),
            Token::IntegerLiteral(s) => TokenModel::IntegerLiteral(s@),
            Token::FloatLiteral(s) => TokenModel::FloatLiteral(s@),
        }
    }
}

impl Token {
    /// A copy of this token with the same model.
    pub fn dup(&self) -> (t: Token)
        ensures
            t.deep_view() == self.deep_view(),
    {
        match self {
            Token::Keyword(k) => Token::Keyword(*k),
            Token::Punct(p) => Token::Punct(*p),
            Token::Identifier(s) => Token::Identifier(s.clone()),
            Token::StringLiteral(s) => Token::StringLiteral(s.clone()),
            Token::IntegerLiteral(s) => Token::IntegerLiteral(s.clone()),
            Token::FloatLiteral(s) => Token::FloatLiteral(s.clone()),
        }
    }
}

/// A token together with its span: `start` is the offset of its first
/// character, `end` the offset one past its last character.
#[derive(Clone, Debug, PartialEq, Eq)]
pub struct PosToken {
    pub token: Token,
    pub start: usize,
    pub end: usize,
}

/// The mathematical model of a `PosToken`.
pub struct PosTokenModel {
    pub token: TokenModel,
    pub start: int,
    pub end: int,
}

impl DeepView for PosToken {
    type V = PosTokenModel;

    open spec fn deep_view(&self) -> PosTokenModel {
        PosTokenModel { token: self.token.deep_view(), start: self.start as int, end: self.end as int }
    }
}

/// A lexical error: the offset of the offending character or substring,
/// together with that text.
#[derive(Clone, Debug, PartialEq, Eq)]
pub struct LexicalError {
    pub position: usize,
    pub offending: String,
}

/// The mathematical model of a `LexicalError`.
pub struct LexicalErrorModel {
    pub position: int,
    pub offending: Seq<char>,
}

impl DeepView for LexicalError {
    type V = LexicalErrorModel;

    open spec fn deep_view(&self) -> LexicalErrorModel {
        LexicalErrorModel { position: self.position as int, offending: self.offending@ }
    }
}

// ---------------------------------------------------------------------------
// Character classes
// ---------------------------------------------------------------------------

pub open spec fn is_whitespace_char(c: char) -> bool {
    c == ' ' || c == '\t' || c == '\n' || c == '\r'
}

pub open spec fn is_alpha_char(c: char) -> bool {
    ('a' as u32 <= c as u32 && c as u32 <= 'z' as u32) || ('A' as u32 <= c as u32 && c as u32
        <= 'Z' as u32)
}

pub open spec fn is_digit_char(c: char) -> bool {
    '0' as u32 <= c as u32 && c as u32 <= '9' as u32
}

pub open spec fn is_hex_char(c: char) -> bool {
    is_digit_char(c) || ('a' as u32 <= c as u32 && c as u32 <= 'f' as u32) || ('A' as u32 <= c
        as u32 && c as u32 <= 'F' as u32)
}

/// A character that may continue an identifier.
pub open spec fn is_ident_char(c: char) -> bool {
    is_alpha_char(c) || is_digit_char(c) || c == '_' || c == '-'
}

fn ws_char(c: char) -> (b: bool)
    ensures
        b == is_whitespace_char(c),
{
    c == ' ' || c == '\t' || c == '\n' || c == '\r'
}

fn alpha_char(c: char) -> (b: bool)
    ensures
        b == is_alpha_char(c),
{
    ('a' as u32 <= c as u32 && c as u32 <= 'z' as u32) || ('A' as u32 <= c as u32 && c as u32
        <= 'Z' as u32)
}

fn digit_char(c: char) -> (b: bool)
    ensures
        b == is_digit_char(c),
{
    '0' as u32 <= c as u32 && c as u32 <= '9' as u32
}

fn hex_char(c: char) -> (b: bool)
    ensures
        b == is_hex_char(c),
{
    digit_char(c) || ('a' as u32 <= c as u32 && c as u32 <= 'f' as u32) || ('A' as u32 <= c as u32
        && c as u32 <= 'F' as u32)
}

fn ident_char(c: char) -> (b: bool)
    ensures
        b == is_ident_char(c),
{
    alpha_char(c) || digit_char(c) || c == '_' || c == '-'
}

// ---------------------------------------------------------------------------
// Scan helpers: specification and executable mirrors
// ---------------------------------------------------------------------------

/// The offset of the newline ending a line comment's text, or the input's end.
pub open spec fn line_comment_end(s: Seq<char>, i: int) -> int
    decreases s.len() - i,
{
    if !(0 <= i < s.len()) {
        i
    } else if s[i] == '\n' {
        i
    } else {
        line_comment_end(s, i + 1)
    }
}

/// The offset just past the `*/` closing a block comment whose body starts at
/// `i`, or `None` when the comment is unterminated.
pub open spec fn block_comment_end(s: Seq<char>, i: int) -> Option<int>
    decreases s.len() - i,
{
    if !(0 <= i && i + 2 <= s.len()) {
        Option::None
    } else if s[i] == '*' && s[i + 1] == '/' {
        Option::Some(i + 2)
    } else {
        block_comment_end(s, i + 1)
    }
}

/// The offset just past the `"` closing a string literal whose body starts at
/// `i`, or `None` when the literal is unterminated.
pub open spec fn string_literal_end(s: Seq<char>, i: int) -> Option<int>
    decreases s.len() - i,
{
    if !(0 <= i < s.len()) {
        Option::None
    } else if s[i] == '"' {
        Option::Some(i + 1)
    } else {
        string_literal_end(s, i + 1)
    }
}

/// The offset of the first character at or after `i` that cannot continue an
/// identifier.
pub open spec fn ident_run_end(s: Seq<char>, i: int) -> int
    decreases s.len() - i,
{
    if 0 <= i < s.len() && is_ident_char(s[i]) {
        ident_run_end(s, i + 1)
    } else {
        i
    }
}

/// The offset of the first character at or after `i` that is not a digit.
pub open spec fn digit_run_end(s: Seq<char>, i: int) -> int
    decreases s.len() - i,
{
    if 0 <= i < s.len() && is_digit_char(s[i]) {
        digit_run_end(s, i + 1)
    } else {
        i
    }
}

/// The offset of the first character at or after `i` that is not a
/// hexadecimal digit.
pub open spec fn hex_run_end(s: Seq<char>, i: int) -> int
    decreases s.len() - i,
{
    if 0 <= i < s.len() && is_hex_char(s[i]) {
        hex_run_end(s, i + 1)
    } else {
        i
    }
}

fn find_line_comment_end(s: &str, n: usize, i: usize) -> (j: usize)
    requires
        n == s@.len(),
        i <= n,
    ensures
        j as int == line_comment_end(s@, i as int),
        i <= j <= n,
    decreases n - i,
{
    if i >= n {
        i
    } else if s.get_char(i) == '\n' {
        i
    } else {
        find_line_comment_end(s, n, i + 1)
    }
}

fn find_block_comment_end(s: &str, n: usize, i: usize) -> (r: Option<usize>)
    requires
        n == s@.len(),
        i <= n,
    ensures
        match r {
            Option::Some(j) => block_comment_end(s@, i as int) == Option::Some(j as int) && i < j
                <= n,
            Option::None => block_comment_end(s@, i as int) is None,
        },
    decreases n - i,
{
    if !(i < n && i + 1 < n) {
        Option::None
    } else if s.get_char(i) == '*' && s.get_char(i + 1) == '/' {
        Option::Some(i + 2)
    } else {
        find_block_comment_end(s, n, i + 1)
    }
}

fn find_string_literal_end(s: &str, n: usize, i: usize) -> (r: Option<usize>)
    requires
        n == s@.len(),
        i <= n,
    ensures
        match r {
            Option::Some(j) => string_literal_end(s@, i as int) == Option::Some(j as int) && i < j
                <= n,
            Option::None => string_literal_end(s@, i as int) is None,
        },
    decreases n - i,
{
    if i >= n {
        Option::None
    } else if s.get_char(i) == '"' {
        Option::Some(i + 1)
    } else {
        find_string_literal_end(s, n, i + 1)
    }
}

fn find_ident_run_end(s: &str, n: usize, i: usize) -> (j: usize)
    requires
        n == s@.len(),
        i <= n,
    ensures
        j as int == ident_run_end(s@, i as int),
        i <= j <= n,
        i < n && is_ident_char(s@[i as int]) ==> i < j,
    decreases n - i,
{
    if i < n && ident_char(s.get_char(i)) {
        find_ident_run_end(s, n, i + 1)
    } else {
        i
    }
}

fn find_digit_run_end(s: &str, n: usize, i: usize) -> (j: usize)
    requires
        n == s@.len(),
        i <= n,
    ensures
        j as int == digit_run_end(s@, i as int),
        i <= j <= n,
        i < n && is_digit_char(s@[i as int]) ==> i < j,
    decreases n - i,
{
    if i < n && digit_char(s.get_char(i)) {
        find_digit_run_end(s, n, i + 1)
    } else {
        i
    }
}

fn find_hex_run_end(s: &str, n: usize, i: usize) -> (j: usize)
    requires
        n == s@.len(),
        i <= n,
    ensures
        j as int == hex_run_end(s@, i as int),
        i <= j <= n,
        i < n && is_hex_char(s@[i as int]) ==> i < j,
    decreases n - i,
{
    if i < n && hex_char(s.get_char(i)) {
        find_hex_run_end(s, n, i + 1)
    } else {
        i
    }
}

// ---------------------------------------------------------------------------
// Keyword classification
// ---------------------------------------------------------------------------

/// Whether the character sequences of two string slices are equal.
fn str_eq(a: &str, b: &str) -> (r: bool)
    ensures
        r == (a@ == b@),
{
    let n = a.unicode_len();
    let m = b.unicode_len();
    if n != m {
        return false;
    }
    let mut i: usize = 0;
    while i < n
        invariant
            n == a@.len(),
            n == b@.len(),
            i <= n,
            forall|k: int| 0 <= k < i ==> a@[k] == b@[k],
        decreases n - i,
    {
        if a.get_char(i) != b.get_char(i) {
            return false;
        }
        i = i + 1;
    }
    proof {
        assert(a@ =~= b@);
    }
    true
}

/// The token that an identifier-shaped word denotes: a keyword where the word
/// is one, otherwise an identifier.
pub open spec fn classify_word(w: Seq<char>) -> TokenModel {
    if w == "any"@ {
        TokenModel::Keyword(Keyword::Any)
    } else if w == "attribute"@ {
        TokenModel::Keyword(Keyword::Attribute)
    } else if w == "boolean"@ {
        TokenModel::Keyword(Keyword::Boolean)
    } else if w == "byte"@ {
        TokenModel::Keyword(Keyword::Byte)
    } else if w == "ByteString"@ {
        TokenModel::Keyword(Keyword::ByteString)
    } else if w == "callback"@ {
        TokenModel::Keyword(Keyword::Callback)
    } else if w == "const"@ {
        TokenModel::Keyword(Keyword::Const)
    } else if w == "DOMString"@ {
        TokenModel::Keyword(Keyword::DOMString)
    } else if w == "dictionary"@ {
        TokenModel::Keyword(Keyword::Dictionary)
    } else if w == "double"@ {
        TokenModel::Keyword(Keyword::Double)
    } else if w == "enum"@ {
        TokenModel::Keyword(Keyword::Enum)
    } else if w == "false"@ {
        TokenModel::Keyword(Keyword::False)
    } else if w == "float"@ {
        TokenModel::Keyword(Keyword::Float)
    } else if w == "FrozenArray"@ {
        TokenModel::Keyword(Keyword::FrozenArray)
    } else if w == "implements"@ {
        TokenModel::Keyword(Keyword::Implements)
    } else if w == "includes"@ {
        TokenModel::Keyword(Keyword::Includes)
    } else if w == "interface"@ {
        TokenModel::Keyword(Keyword::Interface)
    } else if w == "long"@ {
        TokenModel::Keyword(Keyword::Long)
    } else if w == "namespace"@ {
        TokenModel::Keyword(Keyword::Namespace)
    } else if w == "null"@ {
        TokenModel::Keyword(Keyword::Null)
    } else if w == "object"@ {
        TokenModel::Keyword(Keyword::Object)
    } else if w == "octet"@ {
        TokenModel::Keyword(Keyword::Octet)
    } else if w == "or"@ {
        TokenModel::Keyword(Keyword::Or)
    } else if w == "partial"@ {
        TokenModel::Keyword(Keyword::Partial)
    } else if w == "Promise"@ {
        TokenModel::Keyword(Keyword::Promise)
    } else if w == "readonly"@ {
        TokenModel::Keyword(Keyword::Readonly)
    } else if w == "required"@ {
        TokenModel::Keyword(Keyword::Required)
    } else if w == "sequence"@ {
        TokenModel::Keyword(Keyword::Sequence)
    } else if w == "short"@ {
        TokenModel::Keyword(Keyword::Short)
    } else if w == "true"@ {
        TokenModel::Keyword(Keyword::True)
    } else if w == "typedef"@ {
        TokenModel::Keyword(Keyword::Typedef)
    } else if w == "unsigned"@ {
        TokenModel::Keyword(Keyword::Unsigned)
    } else if w == "USVString"@ {
        TokenModel::Keyword(Keyword::USVString)
    } else if w == "void"@ {
        TokenModel::Keyword(Keyword::Void)
    } else {
        TokenModel::Identifier(w)
    }
}

fn classify(w: &str) -> (t: Token)
    ensures
        t.deep_view() == classify_word(w@),
{
    if str_eq(w, "any") {
        Token::Keyword(Keyword::Any)
    } else if str_eq(w, "attribute") {
        Token::Keyword(Keyword::Attribute)
    } else if str_eq(w, "boolean") {
        Token::Keyword(Keyword::Boolean)
    } else if str_eq(w, "byte") {
        Token::Keyword(Keyword::Byte)
    } else if str_eq(w, "ByteString") {
        Token::Keyword(Keyword::ByteString)
    } else if str_eq(w, "callback") {
        Token::Keyword(Keyword::Callback)
    } else if str_eq(w, "const") {
        Token::Keyword(Keyword::Const)
    } else if str_eq(w, "DOMString") {
        Token::Keyword(Keyword::DOMString)
    } else if str_eq(w, "dictionary") {
        Token::Keyword(Keyword::Dictionary)
    } else if str_eq(w, "double") {
        Token::Keyword(Keyword::Double)
    } else if str_eq(w, "enum") {
        Token::Keyword(Keyword::Enum)
    } else if str_eq(w, "false") {
        Token::Keyword(Keyword::False)
    } else if str_eq(w, "float") {
        Token::Keyword(Keyword::Float)
    } else if str_eq(w, "FrozenArray") {
        Token::Keyword(Keyword::FrozenArray)
    } else if str_eq(w, "implements") {
        Token::Keyword(Keyword::Implements)
    } else if str_eq(w, "includes") {
        Token::Keyword(Keyword::Includes)
    } else if str_eq(w, "interface") {
        Token::Keyword(Keyword::Interface)
    } else if str_eq(w, "long") {
        Token::Keyword(Keyword::Long)
    } else if str_eq(w, "namespace") {
        Token::Keyword(Keyword::Namespace)
    } else if str_eq(w, "null") {
        Token::Keyword(Keyword::Null)
    } else if str_eq(w, "object") {
        Token::Keyword(Keyword::Object)
    } else if str_eq(w, "octet") {
        Token::Keyword(Keyword::Octet)
    } else if str_eq(w, "or") {
        Token::Keyword(Keyword::Or)
    } else if str_eq(w, "partial") {
        Token::Keyword(Keyword::Partial)
    } else if str_eq(w, "Promise") {
        Token::Keyword(Keyword::Promise)
    } else if str_eq(w, "readonly") {
        Token::Keyword(Keyword::Readonly)
    } else if str_eq(w, "required") {
        Token::Keyword(Keyword::Required)
    } else if str_eq(w, "sequence") {
        Token::Keyword(Keyword::Sequence)
    } else if str_eq(w, "short") {
        Token::Keyword(Keyword::Short)
    } else if str_eq(w, "true") {
        Token::Keyword(Keyword::True)
    } else if str_eq(w, "typedef") {
        Token::Keyword(Keyword::Typedef)
    } else if str_eq(w, "unsigned") {
        Token::Keyword(Keyword::Unsigned)
    } else if str_eq(w, "USVString") {
        Token::Keyword(Keyword::USVString)
    } else if str_eq(w, "void") {
        Token::Keyword(Keyword::Void)
    } else {
        Token::Identifier(w.to_owned())
    }
}

// ---------------------------------------------------------------------------
// Number scanning
// ---------------------------------------------------------------------------

/// The outcome of scanning a numeric literal.
pub enum NumberScan {
    Number { is_float: bool, end: int },
    Malformed,
}

/// The offset just past a well-formed exponent whose `e`/`E` stands at `i`,
/// or `None` when no well-formed exponent starts there.
pub open spec fn exponent_end(s: Seq<char>, i: int) -> Option<int> {
    let j = if i + 1 < s.len() && (s[i + 1] == '+' || s[i + 1] == '-') {
        i + 2
    } else {
        i + 1
    };
    if j < s.len() && is_digit_char(s[j]) {
        Option::Some(digit_run_end(s, j))
    } else {
        Option::None
    }
}

/// Scans the numeric literal starting at `i`, where `s[i]` is a digit or a
/// minus sign: its end offset and whether it is a float, or `Malformed` when
/// no numeric literal starts there.
pub open spec fn number_token(s: Seq<char>, i: int) -> NumberScan {
    let p = if s[i] == '-' {
        i + 1
    } else {
        i
    };
    if !(p < s.len() && is_digit_char(s[p])) {
        NumberScan::Malformed
    } else if s[p] == '0' && p + 2 <= s.len() && (s[p + 1] == 'x' || s[p + 1] == 'X') {
        if p + 2 < s.len() && is_hex_char(s[p + 2]) {
            NumberScan::Number { is_float: false, end: hex_run_end(s, p + 2) }
        } else {
            NumberScan::Malformed
        }
    } else {
        let d = digit_run_end(s, p);
        if d < s.len() && s[d] == '.' {
            let f = digit_run_end(s, d + 1);
            if f < s.len() && (s[f] == 'e' || s[f] == 'E') {
                match exponent_end(s, f) {
                    Option::Some(e) => NumberScan::Number { is_float: true, end: e },
                    Option::None => NumberScan::Number { is_float: true, end: f },
                }
            } else {
                NumberScan::Number { is_float: true, end: f }
            }
        } else if d < s.len() && (s[d] == 'e' || s[d] == 'E') {
            match exponent_end(s, d) {
                Option::Some(e) => NumberScan::Number { is_float: true, end: e },
                Option::None => NumberScan::Number { is_float: false, end: d },
            }
        } else {
            NumberScan::Number { is_float: false, end: d }
        }
    }
}

/// Scans an exponent at `i` (where `s[i]` is `e` or `E`).
fn scan_exponent(s: &str, n: usize, i: usize) -> (r: Option<usize>)
    requires
        n == s@.len(),
        i < n,
    ensures
        match r {
            Option::Some(e) => exponent_end(s@, i as int) == Option::Some(e as int) && i < e <= n,
            Option::None => exponent_end(s@, i as int) is None,
        },
{
    let j: usize = if i + 1 < n && (s.get_char(i + 1) == '+' || s.get_char(i + 1) == '-') {
        i + 2
    } else {
        i + 1
    };
    if j < n && digit_char(s.get_char(j)) {
        let e = find_digit_run_end(s, n, j);
        Option::Some(e)
    } else {
        Option::None
    }
}

/// Scans the numeric literal starting at `i`: `Some((is_float, end))`, or
/// `None` when the text at `i` is not a numeric literal.
fn scan_number(s: &str, n: usize, i: usize) -> (r: Option<(bool, usize)>)
    requires
        n == s@.len(),
        i < n,
    ensures
        match r {
            Option::Some(fe) => number_token(s@, i as int) == (NumberScan::Number {
                is_float: fe.0,
                end: fe.1 as int,
            }) && i < fe.1 <= n,
            Option::None => number_token(s@, i as int) is Malformed,
        },
{
    let p: usize = if s.get_char(i) == '-' {
        i + 1
    } else {
        i
    };
    if !(p < n && digit_char(s.get_char(p))) {
        return Option::None;
    }
    if s.get_char(p) == '0' && p + 1 < n && (s.get_char(p + 1) == 'x' || s.get_char(p + 1)
        == 'X') {
        if p + 2 < n && hex_char(s.get_char(p + 2)) {
            let e = find_hex_run_end(s, n, p + 2);
            return Option::Some((false, e));
        } else {
            return Option::None;
        }
    }
    let d = find_digit_run_end(s, n, p);
    if d < n && s.get_char(d) == '.' {
        let f = find_digit_run_end(s, n, d + 1);
        if f < n && (s.get_char(f) == 'e' || s.get_char(f) == 'E') {
            match scan_exponent(s, n, f) {
                Option::Some(e) => Option::Some((true, e)),
                Option::None => Option::Some((true, f)),
            }
        } else {
            Option::Some((true, f))
        }
    } else if d < n && (s.get_char(d) == 'e' || s.get_char(d) == 'E') {
        match scan_exponent(s, n, d) {
            Option::Some(e) => Option::Some((true, e)),
            Option::None => Option::Some((false, d)),
        }
    } else {
        Option::Some((false, d))
    }
}

// ---------------------------------------------------------------------------
// The lexer itself
// ---------------------------------------------------------------------------

/// One step of the lexer at offset `i`: the end of input, a skipped stretch
/// of whitespace or comment, one token, or a lexical error.
pub enum LexStep {
    End,
    Skip(int),
    Tok(TokenModel, int),
    Fail(LexicalErrorModel),
}

/// The invalid-character error at offset `i`.
pub open spec fn bad_char_error(s: Seq<char>, i: int) -> LexicalErrorModel {
    LexicalErrorModel { position: i, offending: s.subrange(i, i + 1) }
}

/// What the lexer does at offset `i` of `s`.
pub open spec fn lex_step(s: Seq<char>, i: int) -> LexStep {
    if i >= s.len() {
        LexStep::End
    } else {
        let c = s[i];
        if is_whitespace_char(c) {
            LexStep::Skip(i + 1)
        } else if c == '/' {
            if i + 1 < s.len() && s[i + 1] == '/' {
                LexStep::Skip(line_comment_end(s, i + 2))
            } else if i + 1 < s.len() && s[i + 1] == '*' {
                match block_comment_end(s, i + 2) {
                    Option::Some(j) => LexStep::Skip(j),
                    Option::None => LexStep::Fail(
                        LexicalErrorModel { position: i, offending: s.subrange(i, i + 2) },
                    ),
                }
            } else {
                LexStep::Fail(bad_char_error(s, i))
            }
        } else if c == '"' {
            match string_literal_end(s, i + 1) {
                Option::Some(j) => LexStep::Tok(
                    TokenModel::StringLiteral(s.subrange(i + 1, j - 1)),
                    j,
                ),
                Option::None => LexStep::Fail(bad_char_error(s, i)),
            }
        } else if is_alpha_char(c) {
            let j = ident_run_end(s, i + 1);
            LexStep::Tok(classify_word(s.subrange(i, j)), j)
        } else if c == '_' {
            if i + 1 < s.len() && is_alpha_char(s[i + 1]) {
                let j = ident_run_end(s, i + 2);
                LexStep::Tok(TokenModel::Identifier(s.subrange(i + 1, j)), j)
            } else {
                LexStep::Fail(bad_char_error(s, i))
            }
        } else if is_digit_char(c) || c == '-' {
            match number_token(s, i) {
                NumberScan::Number { is_float, end } => LexStep::Tok(
                    if is_float {
                        TokenModel::FloatLiteral(s.subrange(i, end))
                    } else {
                        TokenModel::IntegerLiteral(s.subrange(i, end))
                    },
                    end,
                ),
                NumberScan::Malformed => LexStep::Fail(bad_char_error(s, i)),
            }
        } else if c == '(' {
            LexStep::Tok(TokenModel::Punct(Punct::LeftParen), i + 1)
        } else if c == ')' {
            LexStep::Tok(TokenModel::Punct(Punct::RightParen), i + 1)
        } else if c == '[' {
            LexStep::Tok(TokenModel::Punct(Punct::LeftBracket), i + 1)
        } else if c == ']' {
            LexStep::Tok(TokenModel::Punct(Punct::RightBracket), i + 1)
        } else if c == '{' {
            LexStep::Tok(TokenModel::Punct(Punct::LeftBrace), i + 1)
        } else if c == '}' {
            LexStep::Tok(TokenModel::Punct(Punct::RightBrace), i + 1)
        } else if c == ';' {
            LexStep::Tok(TokenModel::Punct(Punct::Semicolon), i + 1)
        } else if c == ':' {
            LexStep::Tok(TokenModel::Punct(Punct::Colon), i + 1)
        } else if c == ',' {
            LexStep::Tok(TokenModel::Punct(Punct::Comma), i + 1)
        } else if c == '=' {
            LexStep::Tok(TokenModel::Punct(Punct::Equals), i + 1)
        } else if c == '<' {
            LexStep::Tok(TokenModel::Punct(Punct::LessThan), i + 1)
        } else if c == '>' {
            LexStep::Tok(TokenModel::Punct(Punct::GreaterThan), i + 1)
        } else if c == '?' {
            LexStep::Tok(TokenModel::Punct(Punct::QuestionMark), i + 1)
        } else {
            LexStep::Fail(bad_char_error(s, i))
        }
    }
}

/// The token sequence of `s` from offset `i` on, or the first lexical error.
pub open spec fn lex_from(s: Seq<char>, i: int) -> Result<
    Seq<PosTokenModel>,
    LexicalErrorModel,
>
    decreases s.len() - i,
{
    match lex_step(s, i) {
        LexStep::End => Result::Ok(Seq::empty()),
        LexStep::Skip(j) => if i < j && j <= s.len() {
            lex_from(s, j)
        } else {
            // never reached: a skipped stretch is non-empty and stays in bounds
            Result::Ok(Seq::empty())
        },
        LexStep::Tok(t, j) => if i < j && j <= s.len() {
            match lex_from(s, j) {
                Result::Ok(rest) => Result::Ok(
                    seq![PosTokenModel { token: t, start: i, end: j }] + rest,
                ),
                Result::Err(e) => Result::Err(e),
            }
        } else {
            // never reached: a token is non-empty and stays in bounds
            Result::Ok(Seq::empty())
        },
        LexStep::Fail(e) => Result::Err(e),
    }
}

/// The token sequence of the whole of `s`, or the first lexical error.
pub open spec fn spec_lex(s: Seq<char>) -> Result<Seq<PosTokenModel>, LexicalErrorModel> {
    lex_from(s, 0)
}

/// Whether an executable lexer result agrees with the model's.
pub open spec fn lex_res_matches(
    r: Result<Vec<PosToken>, LexicalError>,
    m: Result<Seq<PosTokenModel>, LexicalErrorModel>,
) -> bool {
    match (r, m) {
        (Result::Ok(v), Result::Ok(ts)) => v.deep_view() == ts,
        (Result::Err(e), Result::Err(em)) => e.deep_view() == em,
        _ => false,
    }
}

/// The invalid-character error at offset `i`, as a value.
fn make_bad_char_error(s: &str, n: usize, i: usize) -> (e: LexicalError)
    requires
        n == s@.len(),
        i < n,
    ensures
        e.deep_view() == bad_char_error(s@, i as int),
{
    LexicalError { position: i, offending: s.substring_char(i, i + 1).to_owned() }
}

/// Lexes `s` from offset `i` on.
fn lex_at(s: &str, n: usize, i: usize) -> (r: Result<Vec<PosToken>, LexicalError>)
    requires
        n == s@.len(),
        i <= n,
    ensures
        lex_res_matches(r, lex_from(s@, i as int)),
    decreases n - i, 0int,
{
    if i >= n {
        let v: Vec<PosToken> = Vec::new();
        proof {
            assert(lex_step(s@, i as int) == LexStep::End);
            assert(v.deep_view() =~= Seq::<PosTokenModel>::empty());
        }
        return Result::Ok(v);
    }
    let c = s.get_char(i);
    if ws_char(c) {
        assert(lex_step(s@, i as int) == LexStep::Skip(i as int + 1));
        lex_at(s, n, i + 1)
    } else if c == '/' {
        if i + 1 < n && s.get_char(i + 1) == '/' {
            let j = find_line_comment_end(s, n, i + 2);
            assert(lex_step(s@, i as int) == LexStep::Skip(j as int));
            lex_at(s, n, j)
        } else if i + 1 < n && s.get_char(i + 1) == '*' {
            match find_block_comment_end(s, n, i + 2) {
                Option::Some(j) => {
                    assert(lex_step(s@, i as int) == LexStep::Skip(j as int));
                    lex_at(s, n, j)
                },
                Option::None => {
                    let e = LexicalError {
                        position: i,
                        offending: s.substring_char(i, i + 2).to_owned(),
                    };
                    Result::Err(e)
                },
            }
        } else {
            Result::Err(make_bad_char_error(s, n, i))
        }
    } else if c == '"' {
        match find_string_literal_end(s, n, i + 1) {
            Option::Some(j) => {
                let t = Token::StringLiteral(s.substring_char(i + 1, j - 1).to_owned());
                push_token(s, n, t, i, j)
            },
            Option::None => Result::Err(make_bad_char_error(s, n, i)),
        }
    } else if alpha_char(c) {
        let j = find_ident_run_end(s, n, i + 1);
        let t = classify(s.substring_char(i, j));
        push_token(s, n, t, i, j)
    } else if c == '_' {
        if i + 1 < n && alpha_char(s.get_char(i + 1)) {
            let j = find_ident_run_end(s, n, i + 2);
            let t = Token::Identifier(s.substring_char(i + 1, j).to_owned());
            push_token(s, n, t, i, j)
        } else {
            Result::Err(make_bad_char_error(s, n, i))
        }
    } else if digit_char(c) || c == '-' {
        match scan_number(s, n, i) {
            Option::Some(fe) => {
                let t = if fe.0 {
                    Token::FloatLiteral(s.substring_char(i, fe.1).to_owned())
                } else {
                    Token::IntegerLiteral(s.substring_char(i, fe.1).to_owned())
                };
                push_token(s, n, t, i, fe.1)
            },
            Option::None => Result::Err(make_bad_char_error(s, n, i)),
        }
    } else {
        let p: Option<Punct> = if c == '(' {
            Option::Some(Punct::LeftParen)
        } else if c == ')' {
            Option::Some(Punct::RightParen)
        } else if c == '[' {
            Option::Some(Punct::LeftBracket)
        } else if c == ']' {
            Option::Some(Punct::RightBracket)
        } else if c == '{' {
            Option::Some(Punct::LeftBrace)
        } else if c == '}' {
            Option::Some(Punct::RightBrace)
        } else if c == ';' {
            Option::Some(Punct::Semicolon)
        } else if c == ':' {
            Option::Some(Punct::Colon)
        } else if c == ',' {
            Option::Some(Punct::Comma)
        } else if c == '=' {
            Option::Some(Punct::Equals)
        } else if c == '<' {
            Option::Some(Punct::LessThan)
        } else if c == '>' {
            Option::Some(Punct::GreaterThan)
        } else if c == '?' {
            Option::Some(Punct::QuestionMark)
        } else {
            Option::None
        };
        match p {
            Option::Some(q) => push_token(s, n, Token::Punct(q), i, i + 1),
            Option::None => Result::Err(make_bad_char_error(s, n, i)),
        }
    }
}

/// Lexes on from `end` and puts `t`, spanning `start..end`, in front.
fn push_token(s: &str, n: usize, t: Token, start: usize, end: usize) -> (r: Result<
    Vec<PosToken>,
    LexicalError,
>)
    requires
        n == s@.len(),
        start < end <= n,
        lex_step(s@, start as int) == LexStep::Tok(t.deep_view(), end as int),
    ensures
        lex_res_matches(r, lex_from(s@, start as int)),
    decreases n - end, 1int,
{
    match lex_at(s, n, end) {
        Result::Ok(rest) => {
            let ghost rest_model = rest.deep_view();
            let mut v: Vec<PosToken> = Vec::new();
            let pt = PosToken { token: t, start, end };
            let ghost ptm = pt.deep_view();
            v.push(pt);
            let mut rest_mut = rest;
            v.append(&mut rest_mut);
            proof {
                assert(v.deep_view() =~= seq![ptm] + rest_model);
            }
            Result::Ok(v)
        },
        Result::Err(e) => Result::Err(e),
    }
}

/// Lexes the whole of `s`: its token sequence, or the first lexical error.
pub fn lex(s: &str) -> (r: Result<Vec<PosToken>, LexicalError>)
    ensures
        lex_res_matches(r, spec_lex(s@)),
{
    let n = s.unicode_len();
    lex_at(s, n, 0)
}

} // verus!
