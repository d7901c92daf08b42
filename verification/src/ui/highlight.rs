//! SQL syntax highlighting rules: which tone each kind of token gets, and how
//! keywords are grouped.
use crate::text::{chars_of, str_eq, string_from_chars};
use crate::ui::view::{Segment, Tone};
use sqlparser::keywords::{
    RESERVED_FOR_COLUMN_ALIAS, RESERVED_FOR_IDENTIFIER, RESERVED_FOR_TABLE_ALIAS,
    RESERVED_FOR_TABLE_FACTOR,
};
use sqlparser::keywords::Keyword;
use sqlparser::dialect::PostgreSqlDialect;
use sqlparser::tokenizer::{Token, Tokenizer};
use vstd::prelude::*;

verus! {

/// A token of sqlparser's tokenizer, by kind; a word carries the name of the
/// keyword it is (`NoKeyword` for a plain identifier).
#[derive(Debug, Clone, PartialEq, Eq)]
pub enum SqlToken {
    Word { keyword: String },
    Number,
    SingleQuotedString,
    DoubleQuotedString,
    TripleSingleQuotedString,
    TripleDoubleQuotedString,
    DollarQuotedString,
    SingleQuotedByteStringLiteral,
    DoubleQuotedByteStringLiteral,
    TripleSingleQuotedByteStringLiteral,
    TripleDoubleQuotedByteStringLiteral,
    SingleQuotedRawStringLiteral,
    DoubleQuotedRawStringLiteral,
    TripleSingleQuotedRawStringLiteral,
    TripleDoubleQuotedRawStringLiteral,
    NationalStringLiteral,
    QuoteDelimitedStringLiteral,
    NationalQuoteDelimitedStringLiteral,
    EscapedStringLiteral,
    UnicodeStringLiteral,
    HexStringLiteral,
    Eq,
    Neq,
    Lt,
    Gt,
    LtEq,
    GtEq,
    Spaceship,
    Plus,
    Minus,
    Mul,
    Div,
    DuckIntDiv,
    Mod,
    StringConcat,
    DoubleColon,
    Assignment,
    Ampersand,
    Pipe,
    Caret,
    RArrow,
    Sharp,
    DoubleSharp,
    Tilde,
    TildeAsterisk,
    ExclamationMarkTilde,
    ExclamationMarkTildeAsterisk,
    DoubleTilde,
    DoubleTildeAsterisk,
    ExclamationMarkDoubleTilde,
    ExclamationMarkDoubleTildeAsterisk,
    ShiftLeft,
    ShiftRight,
    Overlap,
    ExclamationMark,
    DoubleExclamationMark,
    AtSign,
    CaretAt,
    PGSquareRoot,
    PGCubeRoot,
    Arrow,
    LongArrow,
    HashArrow,
    HashLongArrow,
    AtArrow,
    ArrowAt,
    HashMinus,
    AtQuestion,
    AtAt,
    Question,
    QuestionAnd,
    QuestionPipe,
    CustomBinaryOperator,
    LParen,
    Whitespace,
    /// Any other token.
    Other,
}

/// The token is a literal: a number or any kind of string literal.
pub open spec fn is_literal(t: SqlToken) -> bool {
    match t {
        SqlToken::Number | SqlToken::SingleQuotedString | SqlToken::DoubleQuotedString
        | SqlToken::TripleSingleQuotedString | SqlToken::TripleDoubleQuotedString
        | SqlToken::DollarQuotedString | SqlToken::SingleQuotedByteStringLiteral
        | SqlToken::DoubleQuotedByteStringLiteral | SqlToken::TripleSingleQuotedByteStringLiteral
        | SqlToken::TripleDoubleQuotedByteStringLiteral | SqlToken::SingleQuotedRawStringLiteral
        | SqlToken::DoubleQuotedRawStringLiteral | SqlToken::TripleSingleQuotedRawStringLiteral
        | SqlToken::TripleDoubleQuotedRawStringLiteral | SqlToken::NationalStringLiteral
        | SqlToken::QuoteDelimitedStringLiteral | SqlToken::NationalQuoteDelimitedStringLiteral
        | SqlToken::EscapedStringLiteral | SqlToken::UnicodeStringLiteral
        | SqlToken::HexStringLiteral => true,
        _ => false,
    }
}

/// The token is an operator.
pub open spec fn is_operator(t: SqlToken) -> bool {
    match t {
        SqlToken::Eq | SqlToken::Neq | SqlToken::Lt | SqlToken::Gt | SqlToken::LtEq
        | SqlToken::GtEq | SqlToken::Spaceship | SqlToken::Plus | SqlToken::Minus | SqlToken::Mul
        | SqlToken::Div | SqlToken::DuckIntDiv | SqlToken::Mod | SqlToken::StringConcat
        | SqlToken::DoubleColon | SqlToken::Assignment | SqlToken::Ampersand | SqlToken::Pipe
        | SqlToken::Caret | SqlToken::RArrow | SqlToken::Sharp | SqlToken::DoubleSharp
        | SqlToken::Tilde | SqlToken::TildeAsterisk | SqlToken::ExclamationMarkTilde
        | SqlToken::ExclamationMarkTildeAsterisk | SqlToken::DoubleTilde
        | SqlToken::DoubleTildeAsterisk | SqlToken::ExclamationMarkDoubleTilde
        | SqlToken::ExclamationMarkDoubleTildeAsterisk | SqlToken::ShiftLeft
        | SqlToken::ShiftRight | SqlToken::Overlap | SqlToken::ExclamationMark
        | SqlToken::DoubleExclamationMark | SqlToken::AtSign | SqlToken::CaretAt
        | SqlToken::PGSquareRoot | SqlToken::PGCubeRoot | SqlToken::Arrow | SqlToken::LongArrow
        | SqlToken::HashArrow | SqlToken::HashLongArrow | SqlToken::AtArrow | SqlToken::ArrowAt
        | SqlToken::HashMinus | SqlToken::AtQuestion | SqlToken::AtAt | SqlToken::Question
        | SqlToken::QuestionAnd | SqlToken::QuestionPipe | SqlToken::CustomBinaryOperator => true,
        _ => false,
    }
}

/// sqlparser's `RESERVED_FOR_TABLE_ALIAS` list (words reserved for table aliases) holds
/// the keyword that `name` is, looked up as `Token::make_keyword` does.
pub uninterp spec fn reserved_for_table_alias(name: Seq<char>) -> bool;

/// Looks `name` up with sqlparser's `Token::make_keyword` and tells whether
/// `RESERVED_FOR_TABLE_ALIAS` holds that keyword; the result is named by
/// `reserved_for_table_alias`.
#[verifier::external_body]
fn in_reserved_for_table_alias(name: &str) -> (r: bool)
    ensures
        r == reserved_for_table_alias(name@),
{
    match Token::make_keyword(name) {
        Token::Word(w) => RESERVED_FOR_TABLE_ALIAS.contains(&w.keyword),
        _ => false,
    }
}

/// sqlparser's `RESERVED_FOR_COLUMN_ALIAS` list (words reserved for column aliases) holds
/// the keyword that `name` is, looked up as `Token::make_keyword` does.
pub uninterp spec fn reserved_for_column_alias(name: Seq<char>) -> bool;

/// Looks `name` up with sqlparser's `Token::make_keyword` and tells whether
/// `RESERVED_FOR_COLUMN_ALIAS` holds that keyword; the result is named by
/// `reserved_for_column_alias`.
#[verifier::external_body]
fn in_reserved_for_column_alias(name: &str) -> (r: bool)
    ensures
        r == reserved_for_column_alias(name@),
{
    match Token::make_keyword(name) {
        Token::Word(w) => RESERVED_FOR_COLUMN_ALIAS.contains(&w.keyword),
        _ => false,
    }
}

/// sqlparser's `RESERVED_FOR_TABLE_FACTOR` list (words reserved for table factors) holds
/// the keyword that `name` is, looked up as `Token::make_keyword` does.
pub uninterp spec fn reserved_for_table_factor(name: Seq<char>) -> bool;

/// Looks `name` up with sqlparser's `Token::make_keyword` and tells whether
/// `RESERVED_FOR_TABLE_FACTOR` holds that keyword; the result is named by
/// `reserved_for_table_factor`.
#[verifier::external_body]
fn in_reserved_for_table_factor(name: &str) -> (r: bool)
    ensures
        r == reserved_for_table_factor(name@),
{
    match Token::make_keyword(name) {
        Token::Word(w) => RESERVED_FOR_TABLE_FACTOR.contains(&w.keyword),
        _ => false,
    }
}

/// sqlparser's `RESERVED_FOR_IDENTIFIER` list (words reserved for identifiers) holds
/// the keyword that `name` is, looked up as `Token::make_keyword` does.
pub uninterp spec fn reserved_for_identifier(name: Seq<char>) -> bool;

/// Looks `name` up with sqlparser's `Token::make_keyword` and tells whether
/// `RESERVED_FOR_IDENTIFIER` holds that keyword; the result is named by
/// `reserved_for_identifier`.
#[verifier::external_body]
fn in_reserved_for_identifier(name: &str) -> (r: bool)
    ensures
        r == reserved_for_identifier(name@),
{
    match Token::make_keyword(name) {
        Token::Word(w) => RESERVED_FOR_IDENTIFIER.contains(&w.keyword),
        _ => false,
    }
}

/// The keyword `name` is reserved by one of sqlparser's reserved-word lists
/// (for table aliases, column aliases, table factors or identifiers).
pub open spec fn reserved_keyword(name: Seq<char>) -> bool {
    reserved_for_table_alias(name) || reserved_for_column_alias(name) || reserved_for_table_factor(
        name,
    ) || reserved_for_identifier(name)
}

/// Whether one of sqlparser's reserved-word lists holds the keyword `name` is.
pub fn is_reserved_keyword(name: &str) -> (r: bool)
    ensures
        r == reserved_keyword(name@),
{
    in_reserved_for_table_alias(name) || in_reserved_for_column_alias(name)
        || in_reserved_for_table_factor(name) || in_reserved_for_identifier(name)
}

/// Keywords of data definition.
pub open spec fn ddl_keywords() -> Seq<Seq<char>> {
    seq![
        "CREATE"@, "ALTER"@, "DROP"@, "TRUNCATE"@, "TABLE"@, "INDEX"@, "VIEW"@, "SCHEMA"@,
        "DATABASE"@, "EXTENSION"@, "TYPE"@, "DOMAIN"@, "SEQUENCE"@, "FUNCTION"@, "PROCEDURE"@,
        "TRIGGER"@,
    ]
}

/// Keywords of data manipulation.
pub open spec fn dml_keywords() -> Seq<Seq<char>> {
    seq!["SELECT"@, "INSERT"@, "UPDATE"@, "DELETE"@, "MERGE"@, "COPY"@, "CALL"@, "VALUES"@, "RETURNING"@]
}

/// Keywords that open or join clauses.
pub open spec fn clause_keywords() -> Seq<Seq<char>> {
    seq![
        "FROM"@, "WHERE"@, "JOIN"@, "LEFT"@, "RIGHT"@, "INNER"@, "OUTER"@, "FULL"@, "CROSS"@,
        "ON"@, "GROUP"@, "BY"@, "ORDER"@, "HAVING"@, "LIMIT"@, "OFFSET"@, "WITH"@, "UNION"@,
        "EXCEPT"@, "INTERSECT"@,
    ]
}

/// Further keywords that are highlighted.
pub open spec fn listed_keywords() -> Seq<Seq<char>> {
    seq![
        "AS"@, "AND"@, "OR"@, "NOT"@, "NULL"@, "IS"@, "IN"@, "LIKE"@, "ILIKE"@, "BETWEEN"@,
        "DISTINCT"@, "COUNT"@, "SUM"@, "AVG"@, "MAX"@, "MIN"@, "ALL"@, "INSERT"@, "UPDATE"@,
        "DELETE"@, "CREATE"@, "DROP"@, "ALTER"@, "TABLE"@, "INDEX"@, "BY"@, "CASE"@, "WHEN"@,
        "THEN"@, "ELSE"@, "CAST"@,
    ]
}

/// Whether `name` is one of `list`.
fn in_list(list: &[&'static str], name: &str) -> (r: bool)
    ensures
        r == list@.map_values(|s: &str| s@).contains(name@),
{
    let n = list.len();
    let mut i: usize = 0;
    while i < n
        invariant
            n == list@.len(),
            i <= n,
            forall|j: int| 0 <= j < i ==> list@[j]@ != name@,
        decreases n - i,
    {
        if str_eq(list[i], name) {
            assert(list@.map_values(|s: &str| s@)[i as int] == name@);
            return true;
        }
        i += 1;
    }
    proof {
        if list@.map_values(|s: &str| s@).contains(name@) {
            let m = list@.map_values(|s: &str| s@);
            let j = choose|j: int| 0 <= j < m.len() && #[trigger] m[j] == name@;
            assert(list@[j]@ == name@);
        }
    }
    false
}

/// The tone of a keyword: data definition orange, clauses blue, data
/// manipulation and other highlighted keywords purple, others none.
pub open spec fn keyword_tone_spec(name: Seq<char>) -> Option<Tone> {
    if ddl_keywords().contains(name) {
        Some(Tone::Orange)
    } else if clause_keywords().contains(name) {
        Some(Tone::Blue)
    } else if dml_keywords().contains(name) || reserved_keyword(name) || listed_keywords().contains(
        name,
    ) {
        Some(Tone::Purple)
    } else {
        None
    }
}

/// The tone of the keyword named `name`.
pub fn keyword_tone(name: &str) -> (r: Option<Tone>)
    ensures
        r == keyword_tone_spec(name@),
{
    let ddl = [
        "CREATE", "ALTER", "DROP", "TRUNCATE", "TABLE", "INDEX", "VIEW", "SCHEMA", "DATABASE",
        "EXTENSION", "TYPE", "DOMAIN", "SEQUENCE", "FUNCTION", "PROCEDURE", "TRIGGER",
    ];
    assert(ddl@.map_values(|s: &str| s@) =~= ddl_keywords());
    if in_list(&ddl, name) {
        return Some(Tone::Orange);
    }
    let clause = [
        "FROM", "WHERE", "JOIN", "LEFT", "RIGHT", "INNER", "OUTER", "FULL", "CROSS", "ON", "GROUP",
        "BY", "ORDER", "HAVING", "LIMIT", "OFFSET", "WITH", "UNION", "EXCEPT", "INTERSECT",
    ];
    assert(clause@.map_values(|s: &str| s@) =~= clause_keywords());
    if in_list(&clause, name) {
        return Some(Tone::Blue);
    }
    let dml = ["SELECT", "INSERT", "UPDATE", "DELETE", "MERGE", "COPY", "CALL", "VALUES", "RETURNING"];
    assert(dml@.map_values(|s: &str| s@) =~= dml_keywords());
    let listed = [
        "AS", "AND", "OR", "NOT", "NULL", "IS", "IN", "LIKE", "ILIKE", "BETWEEN", "DISTINCT",
        "COUNT", "SUM", "AVG", "MAX", "MIN", "ALL", "INSERT", "UPDATE", "DELETE", "CREATE", "DROP",
        "ALTER", "TABLE", "INDEX", "BY", "CASE", "WHEN", "THEN", "ELSE", "CAST",
    ];
    assert(listed@.map_values(|s: &str| s@) =~= listed_keywords());
    if in_list(&dml, name) || is_reserved_keyword(name) || in_list(&listed, name) {
        return Some(Tone::Purple);
    }
    None
}

/// The tone of a token given the next token that is not whitespace: a word
/// before `(` is a function call (aqua); other words take their keyword's
/// tone; literals are green and operators yellow.
pub open spec fn token_tone_spec(t: SqlToken, next: Option<SqlToken>) -> Option<Tone> {
    match t {
        SqlToken::Word { keyword } => if next == Some(SqlToken::LParen) {
            Some(Tone::Aqua)
        } else {
            keyword_tone_spec(keyword@)
        },
        _ => if is_literal(t) {
            Some(Tone::Green)
        } else if is_operator(t) {
            Some(Tone::Yellow)
        } else {
            None
        },
    }
}

/// The tone a token is highlighted in.
pub fn token_tone(t: &SqlToken, next: Option<&SqlToken>) -> (r: Option<Tone>)
    ensures
        r == token_tone_spec(
            *t,
            match next {
                Some(n) => Some(*n),
                None => None,
            },
        ),
{
    match t {
        SqlToken::Word { keyword } => {
            let call = match next {
                Some(SqlToken::LParen) => true,
                _ => false,
            };
            if call {
                Some(Tone::Aqua)
            } else {
                keyword_tone(keyword.as_str())
            }
        },
        SqlToken::Number | SqlToken::SingleQuotedString | SqlToken::DoubleQuotedString
        | SqlToken::TripleSingleQuotedString | SqlToken::TripleDoubleQuotedString
        | SqlToken::DollarQuotedString | SqlToken::SingleQuotedByteStringLiteral
        | SqlToken::DoubleQuotedByteStringLiteral | SqlToken::TripleSingleQuotedByteStringLiteral
        | SqlToken::TripleDoubleQuotedByteStringLiteral | SqlToken::SingleQuotedRawStringLiteral
        | SqlToken::DoubleQuotedRawStringLiteral | SqlToken::TripleSingleQuotedRawStringLiteral
        | SqlToken::TripleDoubleQuotedRawStringLiteral | SqlToken::NationalStringLiteral
        | SqlToken::QuoteDelimitedStringLiteral | SqlToken::NationalQuoteDelimitedStringLiteral
        | SqlToken::EscapedStringLiteral | SqlToken::UnicodeStringLiteral
        | SqlToken::HexStringLiteral => Some(Tone::Green),
        SqlToken::Eq | SqlToken::Neq | SqlToken::Lt | SqlToken::Gt | SqlToken::LtEq
        | SqlToken::GtEq | SqlToken::Spaceship | SqlToken::Plus | SqlToken::Minus | SqlToken::Mul
        | SqlToken::Div | SqlToken::DuckIntDiv | SqlToken::Mod | SqlToken::StringConcat
        | SqlToken::DoubleColon | SqlToken::Assignment | SqlToken::Ampersand | SqlToken::Pipe
        | SqlToken::Caret | SqlToken::RArrow | SqlToken::Sharp | SqlToken::DoubleSharp
        | SqlToken::Tilde | SqlToken::TildeAsterisk | SqlToken::ExclamationMarkTilde
        | SqlToken::ExclamationMarkTildeAsterisk | SqlToken::DoubleTilde
        | SqlToken::DoubleTildeAsterisk | SqlToken::ExclamationMarkDoubleTilde
        | SqlToken::ExclamationMarkDoubleTildeAsterisk | SqlToken::ShiftLeft
        | SqlToken::ShiftRight | SqlToken::Overlap | SqlToken::ExclamationMark
        | SqlToken::DoubleExclamationMark | SqlToken::AtSign | SqlToken::CaretAt
        | SqlToken::PGSquareRoot | SqlToken::PGCubeRoot | SqlToken::Arrow | SqlToken::LongArrow
        | SqlToken::HashArrow | SqlToken::HashLongArrow | SqlToken::AtArrow | SqlToken::ArrowAt
        | SqlToken::HashMinus | SqlToken::AtQuestion | SqlToken::AtAt | SqlToken::Question
        | SqlToken::QuestionAnd | SqlToken::QuestionPipe | SqlToken::CustomBinaryOperator => Some(
            Tone::Yellow,
        ),
        _ => None,
    }
}

/// `c` can be part of an SQL word: an ASCII letter or digit, or `_`.
pub open spec fn is_word_char_spec(c: char) -> bool {
    ('a' <= c <= 'z') || ('A' <= c <= 'Z') || ('0' <= c <= '9') || c == '_'
}

/// Whether `c` can be part of an SQL word.
pub fn is_sql_word_char(c: char) -> (r: bool)
    ensures
        r == is_word_char_spec(c),
{
    ('a' <= c && c <= 'z') || ('A' <= c && c <= 'Z') || ('0' <= c && c <= '9') || c == '_'
}

/// Whether `text` starts with a word character.
pub fn starts_with_sql_word_char(text: &str) -> (r: bool)
    ensures
        r == (text@.len() > 0 && is_word_char_spec(text@[0])),
{
    if text.unicode_len() == 0 {
        return false;
    }
    is_sql_word_char(text.get_char(0))
}

/// The name of the keyword sqlparser recognizes `word` as (`NoKeyword` when it
/// is none), as sqlparser's `Token::make_keyword` looks it up.
pub uninterp spec fn keyword_of(word: Seq<char>) -> Seq<char>;

/// The name of the keyword `word` is, by sqlparser's keyword lookup; the
/// result is named by `keyword_of`.
#[verifier::external_body]
pub fn keyword_name(word: &str) -> (r: String)
    ensures
        r@ == keyword_of(word@),
{
    match Token::make_keyword(word) {
        Token::Word(w) => format!("{:?}", w.keyword),
        _ => format!("{:?}", Keyword::NoKeyword),
    }
}

/// The word is a keyword that is highlighted (purple) where the tokenizer
/// cannot be used.
pub open spec fn word_highlighted(word: Seq<char>) -> bool {
    let k = keyword_of(word);
    reserved_keyword(k) || listed_keywords().contains(k)
}

/// The end of the run of characters of `cs` from `i` that are word characters
/// (`word` true) or not.
pub open spec fn run_end(cs: Seq<char>, i: int) -> int
    decreases cs.len() - i,
{
    if i >= cs.len() || !is_word_char_spec(cs[i]) {
        i
    } else {
        run_end(cs, i + 1)
    }
}

/// The fallback highlighting of `cs` from `i`: each maximal word is a segment,
/// purple when it is a highlighted keyword; every other character is a plain
/// segment of its own.
pub open spec fn words_from(cs: Seq<char>, i: int) -> Seq<(Seq<char>, Option<Tone>)>
    decreases cs.len() - i,
{
    if i < 0 || i >= cs.len() {
        Seq::empty()
    } else if is_word_char_spec(cs[i]) {
        let e = run_end(cs, i);
        if e <= i || e > cs.len() {
            Seq::empty()
        } else {
            let w = cs.subrange(i, e);
            seq![(w, if word_highlighted(w) {
                Some(Tone::Purple)
            } else {
                None
            })] + words_from(cs, e)
        }
    } else {
        seq![(seq![cs[i]], None)] + words_from(cs, i + 1)
    }
}

proof fn lemma_run_end(cs: Seq<char>, i: int)
    requires
        0 <= i,
    ensures
        i <= run_end(cs, i),
        run_end(cs, i) <= cs.len() || run_end(cs, i) == i,
        forall|j: int| i <= j < run_end(cs, i) ==> is_word_char_spec(#[trigger] cs[j]),
        run_end(cs, i) < cs.len() ==> !is_word_char_spec(cs[run_end(cs, i)]),
    decreases cs.len() - i,
{
    if i < cs.len() && is_word_char_spec(cs[i]) {
        lemma_run_end(cs, i + 1);
    }
}

/// Highlights SQL text word by word, for text the tokenizer rejects.
pub fn highlight_sql_words(text: &str) -> (r: Vec<Segment>)
    ensures
        r@.map_values(|s: Segment| (s.text@, s.tone)) == words_from(text@, 0),
        forall|k: int| 0 <= k < r@.len() ==> !(#[trigger] r@[k]).bold,
{
    let cs = chars_of(text);
    let n = cs.len();
    let mut out: Vec<Segment> = Vec::new();
    let mut i: usize = 0;
    while i < n
        invariant
            n == cs@.len(),
            cs@ == text@,
            i <= n,
            out@.map_values(|s: Segment| (s.text@, s.tone)) + words_from(cs@, i as int) == words_from(
                cs@,
                0,
            ),
            forall|k: int| 0 <= k < out@.len() ==> !(#[trigger] out@[k]).bold,
        decreases n - i,
    {
        let ghost before = out@;
        if is_sql_word_char(cs[i]) {
            let mut e = i;
            while e < n && is_sql_word_char(cs[e])
                invariant
                    n == cs@.len(),
                    i <= e <= n,
                    forall|j: int| i <= j < e ==> is_word_char_spec(#[trigger] cs@[j]),
                    run_end(cs@, i as int) == run_end(cs@, e as int),
                decreases n - e,
            {
                e += 1;
            }
            proof {
                lemma_run_end(cs@, i as int);
            }
            let word = string_from_chars(&cs, i, e);
            let k = keyword_name(word.as_str());
            let tone = if is_reserved_keyword(k.as_str()) || in_listed(k.as_str()) {
                Some(Tone::Purple)
            } else {
                None
            };
            out.push(Segment { text: word, tone, bold: false });
            assert(out@.map_values(|s: Segment| (s.text@, s.tone)) =~= before.map_values(
                |s: Segment| (s.text@, s.tone),
            ).push((cs@.subrange(i as int, e as int), tone)));
            i = e;
        } else {
            let one = string_from_chars(&cs, i, i + 1);
            out.push(Segment { text: one, tone: None, bold: false });
            assert(cs@.subrange(i as int, i + 1) =~= seq![cs@[i as int]]);
            assert(out@.map_values(|s: Segment| (s.text@, s.tone)) =~= before.map_values(
                |s: Segment| (s.text@, s.tone),
            ).push((seq![cs@[i as int]], None)));
            i = i + 1;
        }
    }
    out
}

/// Whether `name` is one of the further highlighted keywords.
fn in_listed(name: &str) -> (r: bool)
    ensures
        r == listed_keywords().contains(name@),
{
    let listed = [
        "AS", "AND", "OR", "NOT", "NULL", "IS", "IN", "LIKE", "ILIKE", "BETWEEN", "DISTINCT",
        "COUNT", "SUM", "AVG", "MAX", "MIN", "ALL", "INSERT", "UPDATE", "DELETE", "CREATE", "DROP",
        "ALTER", "TABLE", "INDEX", "BY", "CASE", "WHEN", "THEN", "ELSE", "CAST",
    ];
    assert(listed@.map_values(|s: &str| s@) =~= listed_keywords());
    in_list(&listed, name)
}

/// A token with the 1-based columns where it starts and ends on its line.
#[derive(Debug, Clone)]
pub struct PlacedToken {
    pub token: SqlToken,
    pub start: u64,
    pub end: u64,
}

/// The character index a tokenizer column points at in a line of `n`
/// characters (column 0 is the start; past the end is the end).
pub open spec fn column_char(n: int, column: u64) -> int {
    if column == 0 {
        0
    } else if column - 1 < n {
        column - 1
    } else {
        n
    }
}

/// The first token after `idx` that is not whitespace.
pub open spec fn next_significant_spec(toks: Seq<PlacedToken>, idx: int) -> Option<SqlToken>
    decreases toks.len() - idx,
{
    if idx + 1 >= toks.len() || idx + 1 < 0 {
        None
    } else if toks[idx + 1].token != SqlToken::Whitespace {
        Some(toks[idx + 1].token)
    } else {
        next_significant_spec(toks, idx + 1)
    }
}

/// Tones by kind of token, whatever follows it: number and string literals
/// are green and operators yellow; `(`, whitespace and the tokens the
/// highlighting does not tell apart have no tone; a word followed by anything
/// but `(` takes its keyword's tone: orange for data definition, blue for
/// clauses, purple for data manipulation and the reserved keywords.
pub proof fn law_token_tones_by_kind(t: SqlToken, next: Option<SqlToken>)
    ensures
        t == SqlToken::Number || t == SqlToken::SingleQuotedString || t == SqlToken::DoubleQuotedString || t == SqlToken::TripleSingleQuotedString || t == SqlToken::TripleDoubleQuotedString || t == SqlToken::DollarQuotedString || t == SqlToken::SingleQuotedByteStringLiteral || t == SqlToken::DoubleQuotedByteStringLiteral || t == SqlToken::TripleSingleQuotedByteStringLiteral || t == SqlToken::TripleDoubleQuotedByteStringLiteral || t == SqlToken::SingleQuotedRawStringLiteral || t == SqlToken::DoubleQuotedRawStringLiteral || t == SqlToken::TripleSingleQuotedRawStringLiteral || t == SqlToken::TripleDoubleQuotedRawStringLiteral || t == SqlToken::NationalStringLiteral || t == SqlToken::QuoteDelimitedStringLiteral || t == SqlToken::NationalQuoteDelimitedStringLiteral || t == SqlToken::EscapedStringLiteral || t == SqlToken::UnicodeStringLiteral || t == SqlToken::HexStringLiteral ==> token_tone_spec(t, next) == Some(Tone::Green),
        t == SqlToken::Eq || t == SqlToken::Neq || t == SqlToken::Lt || t == SqlToken::Gt || t == SqlToken::LtEq || t == SqlToken::GtEq || t == SqlToken::Spaceship || t == SqlToken::Plus || t == SqlToken::Minus || t == SqlToken::Mul || t == SqlToken::Div || t == SqlToken::DuckIntDiv || t == SqlToken::Mod || t == SqlToken::StringConcat || t == SqlToken::DoubleColon || t == SqlToken::Assignment || t == SqlToken::Ampersand || t == SqlToken::Pipe || t == SqlToken::Caret || t == SqlToken::RArrow || t == SqlToken::Sharp || t == SqlToken::DoubleSharp || t == SqlToken::Tilde || t == SqlToken::TildeAsterisk || t == SqlToken::ExclamationMarkTilde || t == SqlToken::ExclamationMarkTildeAsterisk || t == SqlToken::DoubleTilde || t == SqlToken::DoubleTildeAsterisk || t == SqlToken::ExclamationMarkDoubleTilde || t == SqlToken::ExclamationMarkDoubleTildeAsterisk || t == SqlToken::ShiftLeft || t == SqlToken::ShiftRight || t == SqlToken::Overlap || t == SqlToken::ExclamationMark || t == SqlToken::DoubleExclamationMark || t == SqlToken::AtSign || t == SqlToken::CaretAt || t == SqlToken::PGSquareRoot || t == SqlToken::PGCubeRoot || t == SqlToken::Arrow || t == SqlToken::LongArrow || t == SqlToken::HashArrow || t == SqlToken::HashLongArrow || t == SqlToken::AtArrow || t == SqlToken::ArrowAt || t == SqlToken::HashMinus || t == SqlToken::AtQuestion || t == SqlToken::AtAt || t == SqlToken::Question || t == SqlToken::QuestionAnd || t == SqlToken::QuestionPipe || t == SqlToken::CustomBinaryOperator ==> token_tone_spec(t, next) == Some(Tone::Yellow),
        t == SqlToken::LParen || t == SqlToken::Whitespace || t == SqlToken::Other
            ==> token_tone_spec(t, next).is_none(),
        t matches SqlToken::Word { keyword } ==> next == Some(SqlToken::LParen) || (if ddl_keywords().contains(keyword@) {
            token_tone_spec(t, next) == Some(Tone::Orange)
        } else if clause_keywords().contains(keyword@) {
            token_tone_spec(t, next) == Some(Tone::Blue)
        } else if dml_keywords().contains(keyword@) || reserved_keyword(keyword@) {
            token_tone_spec(t, next) == Some(Tone::Purple)
        } else {
            true
        }),
{
}

/// The token that follows token `idx` for highlighting is the first later
/// token that is not whitespace: every token in between is whitespace, and
/// there is none exactly when only whitespace follows.
pub proof fn law_next_significant_skips_whitespace(toks: Seq<PlacedToken>, idx: int)
    requires
        0 <= idx < toks.len(),
    ensures
        match next_significant_spec(toks, idx) {
            Some(t) => exists|j: int|
                idx < j < toks.len() && toks[j].token == t && t != SqlToken::Whitespace && (
                forall|m: int| idx < m < j ==> (#[trigger] toks[m]).token == SqlToken::Whitespace),
            None => forall|m: int| idx < m < toks.len() ==> (#[trigger] toks[m]).token == SqlToken::Whitespace,
        },
    decreases toks.len() - idx,
{
    if idx + 1 < toks.len() {
        if toks[idx + 1].token != SqlToken::Whitespace {
            assert(forall|m: int| idx < m < idx + 1 ==> (#[trigger] toks[m]).token == SqlToken::Whitespace);
        } else {
            law_next_significant_skips_whitespace(toks, idx + 1);
            match next_significant_spec(toks, idx + 1) {
                Some(t) => {
                    let j = choose|j: int|
                        idx + 1 < j < toks.len() && toks[j].token == t && t != SqlToken::Whitespace && (
                        forall|m: int| idx + 1 < m < j ==> (#[trigger] toks[m]).token == SqlToken::Whitespace);
                    assert(forall|m: int| idx < m < j ==> (#[trigger] toks[m]).token == SqlToken::Whitespace);
                },
                None => {},
            }
        }
    }
}

/// A word followed by `(`, with only whitespace between, is a function call:
/// it is toned aqua, whatever keyword it is.
pub proof fn law_word_before_paren_is_a_call(toks: Seq<PlacedToken>, k: int, j: int)
    requires
        0 <= k < j < toks.len(),
        toks[k].token is Word,
        toks[j].token == SqlToken::LParen,
        forall|m: int| k < m < j ==> (#[trigger] toks[m]).token == SqlToken::Whitespace,
    ensures
        next_significant_spec(toks, k) == Some(SqlToken::LParen),
        token_tone_spec(toks[k].token, next_significant_spec(toks, k)) == Some(Tone::Aqua),
    decreases j - k,
{
    if k + 1 < j {
        assert(toks[k + 1].token == SqlToken::Whitespace);
        lemma_paren_after_whitespace(toks, k + 1, j);
    }
}

/// From a whitespace token before `j`, the next significant token is `(` at `j`.
proof fn lemma_paren_after_whitespace(toks: Seq<PlacedToken>, k: int, j: int)
    requires
        0 <= k < j < toks.len(),
        toks[j].token == SqlToken::LParen,
        forall|m: int| k <= m < j ==> (#[trigger] toks[m]).token == SqlToken::Whitespace,
    ensures
        next_significant_spec(toks, k) == Some(SqlToken::LParen),
    decreases j - k,
{
    if k + 1 < j {
        lemma_paren_after_whitespace(toks, k + 1, j);
    }
}

/// The highlighted segments of a line from token `k` on, with the text up to
/// character `cursor` already covered: text between tokens is plain, each
/// token gets its tone, and the rest of the line after the last token is
/// plain.
pub open spec fn token_segments(cs: Seq<char>, toks: Seq<PlacedToken>, k: int, cursor: int) -> Seq<
    (Seq<char>, Option<Tone>),
>
    decreases toks.len() - k,
{
    if k < 0 || k >= toks.len() {
        if 0 <= cursor < cs.len() {
            seq![(cs.subrange(cursor, cs.len() as int), None)]
        } else {
            Seq::empty()
        }
    } else {
        let s = column_char(cs.len() as int, toks[k].start);
        let e = column_char(cs.len() as int, toks[k].end);
        let pre = if 0 <= cursor < s {
            seq![(cs.subrange(cursor, s), None)]
        } else {
            Seq::empty()
        };
        let mid = if s < e {
            seq![(cs.subrange(s, e), token_tone_spec(toks[k].token, next_significant_spec(toks, k)))]
        } else {
            Seq::empty()
        };
        pre + mid + token_segments(cs, toks, k + 1, e)
    }
}

/// The character index of a tokenizer column in a line of `n` characters.
fn column_char_index(n: usize, column: u64) -> (r: usize)
    ensures
        r == column_char(n as int, column),
{
    if column == 0 {
        0
    } else if column - 1 < n as u64 {
        (column - 1) as usize
    } else {
        n
    }
}

/// The first token after `idx` that is not whitespace.
pub fn next_significant_token(toks: &[PlacedToken], idx: usize) -> (r: Option<&SqlToken>)
    ensures
        match r {
            Some(t) => next_significant_spec(toks@, idx as int) == Some(*t),
            None => next_significant_spec(toks@, idx as int).is_none(),
        },
{
    let n = toks.len();
    if idx >= n {
        return None;
    }
    let mut j: usize = idx + 1;
    while j < n
        invariant
            n == toks@.len(),
            idx < j <= n,
            next_significant_spec(toks@, idx as int) == next_significant_spec(toks@, j - 1),
        decreases n - j,
    {
        let ws = match toks[j].token {
            SqlToken::Whitespace => true,
            _ => false,
        };
        if !ws {
            return Some(&toks[j].token);
        }
        j += 1;
    }
    None
}

/// Highlights one line of SQL from its tokens.
pub fn highlight_tokens(text: &str, toks: &[PlacedToken]) -> (r: Vec<Segment>)
    ensures
        r@.map_values(|s: Segment| (s.text@, s.tone)) == token_segments(text@, toks@, 0, 0),
        forall|k: int| 0 <= k < r@.len() ==> !(#[trigger] r@[k]).bold,
{
    let cs = chars_of(text);
    let n = cs.len();
    let m = toks.len();
    let mut out: Vec<Segment> = Vec::new();
    let mut cursor: usize = 0;
    let mut k: usize = 0;
    while k < m
        invariant
            n == cs@.len(),
            cs@ == text@,
            m == toks@.len(),
            k <= m,
            cursor <= n,
            out@.map_values(|s: Segment| (s.text@, s.tone)) + token_segments(cs@, toks@, k as int, cursor as int)
                == token_segments(cs@, toks@, 0, 0),
            forall|x: int| 0 <= x < out@.len() ==> !(#[trigger] out@[x]).bold,
        decreases m - k,
    {
        let s = column_char_index(n, toks[k].start);
        let e = column_char_index(n, toks[k].end);
        let ghost before = out@.map_values(|s: Segment| (s.text@, s.tone));
        if cursor < s {
            out.push(Segment { text: string_from_chars(&cs, cursor, s), tone: None, bold: false });
        }
        let ghost after_pre = out@.map_values(|s: Segment| (s.text@, s.tone));
        if s < e {
            let tone = token_tone(&toks[k].token, next_significant_token(toks, k));
            out.push(Segment { text: string_from_chars(&cs, s, e), tone, bold: false });
        }
        proof {
            let pre = if 0 <= cursor < s {
                seq![(cs@.subrange(cursor as int, s as int), None::<Tone>)]
            } else {
                Seq::empty()
            };
            assert(after_pre =~= before + pre);
            let mid = if s < e {
                seq![(cs@.subrange(s as int, e as int), token_tone_spec(toks@[k as int].token, next_significant_spec(toks@, k as int)))]
            } else {
                Seq::empty()
            };
            assert(out@.map_values(|s: Segment| (s.text@, s.tone)) =~= before + pre + mid);
        }
        cursor = e;
        k += 1;
    }
    let ghost before = out@.map_values(|s: Segment| (s.text@, s.tone));
    if cursor < n {
        out.push(Segment { text: string_from_chars(&cs, cursor, n), tone: None, bold: false });
    }
    assert(out@.map_values(|s: Segment| (s.text@, s.tone)) =~= before + token_segments(cs@, toks@, m as int, cursor as int));
    out
}


// ───────────────────────── tokenizing a line ─────────────────────────

/// sqlparser's tokens of one line of SQL (PostgreSQL dialect, escapes left as
/// written), each as its `Debug` rendering with the columns where it starts
/// and ends; `None` when the tokenizer rejects the line.
pub uninterp spec fn line_tokens(line: Seq<char>) -> Option<Seq<(Seq<char>, u64, u64)>>;

/// Tokenizes `line` with sqlparser's `Tokenizer` (`tokenize_with_location`,
/// PostgreSQL dialect, no unescaping) and hands back each token's `Debug`
/// rendering with its start and end columns; the result is named by
/// `line_tokens`.
#[verifier::external_body]
fn tokenize_line(line: &str) -> (r: Option<Vec<(String, u64, u64)>>)
    ensures
        match r {
            Some(v) => line_tokens(line@) == Some(
                v@.map_values(|t: (String, u64, u64)| (t.0@, t.1, t.2)),
            ),
            None => line_tokens(line@).is_none(),
        },
{
    let dialect = PostgreSqlDialect {};
    let tokens = Tokenizer::new(&dialect, line).with_unescape(false).tokenize_with_location().ok()?;
    let mut out = Vec::new();
    for t in tokens.iter() {
        out.push((format!("{:?}", t.token), t.span.start.column, t.span.end.column));
    }
    Some(out)
}

/// The position of the first `(` of `d` at or after `i`, or the end.
pub open spec fn paren_from(d: Seq<char>, i: int) -> int
    decreases d.len() - i,
{
    if i >= d.len() {
        d.len() as int
    } else if d[i] == '(' {
        i
    } else {
        paren_from(d, i + 1)
    }
}

/// The variant a token's `Debug` rendering names: what comes before its first
/// `(`.
pub open spec fn debug_variant(d: Seq<char>) -> Seq<char> {
    d.subrange(0, paren_from(d, 0))
}

/// A character of a Rust identifier (letters, digits, `_`).
pub open spec fn is_ident_char(c: char) -> bool {
    ('a' <= c && c <= 'z') || ('A' <= c && c <= 'Z') || ('0' <= c && c <= '9') || c == '_'
}

/// Where the run of identifier characters that ends at `k` begins.
pub open spec fn ident_start(d: Seq<char>, k: int) -> int
    decreases k,
{
    if k <= 0 {
        0
    } else if is_ident_char(d[k - 1]) {
        ident_start(d, k - 1)
    } else {
        k
    }
}

/// The keyword a word's `Debug` rendering ends with: its last field,
/// `keyword`, written before the closing ` })`.
pub open spec fn debug_keyword(d: Seq<char>) -> Seq<char> {
    let n = d.len() as int;
    if n >= 3 && d[n - 3] == ' ' && d[n - 2] == '}' && d[n - 1] == ')' {
        d.subrange(ident_start(d, n - 3), n - 3)
    } else {
        Seq::empty()
    }
}

/// The kind that a variant name other than `Word` names; `Other` for the
/// variants the highlighting does not tell apart.
pub open spec fn unit_kind(name: Seq<char>) -> SqlToken {
    if name == "Number"@ {
        SqlToken::Number
    } else if name == "SingleQuotedString"@ {
        SqlToken::SingleQuotedString
    } else if name == "DoubleQuotedString"@ {
        SqlToken::DoubleQuotedString
    } else if name == "TripleSingleQuotedString"@ {
        SqlToken::TripleSingleQuotedString
    } else if name == "TripleDoubleQuotedString"@ {
        SqlToken::TripleDoubleQuotedString
    } else if name == "DollarQuotedString"@ {
        SqlToken::DollarQuotedString
    } else if name == "SingleQuotedByteStringLiteral"@ {
        SqlToken::SingleQuotedByteStringLiteral
    } else if name == "DoubleQuotedByteStringLiteral"@ {
        SqlToken::DoubleQuotedByteStringLiteral
    } else if name == "TripleSingleQuotedByteStringLiteral"@ {
        SqlToken::TripleSingleQuotedByteStringLiteral
    } else if name == "TripleDoubleQuotedByteStringLiteral"@ {
        SqlToken::TripleDoubleQuotedByteStringLiteral
    } else if name == "SingleQuotedRawStringLiteral"@ {
        SqlToken::SingleQuotedRawStringLiteral
    } else if name == "DoubleQuotedRawStringLiteral"@ {
        SqlToken::DoubleQuotedRawStringLiteral
    } else if name == "TripleSingleQuotedRawStringLiteral"@ {
        SqlToken::TripleSingleQuotedRawStringLiteral
    } else if name == "TripleDoubleQuotedRawStringLiteral"@ {
        SqlToken::TripleDoubleQuotedRawStringLiteral
    } else if name == "NationalStringLiteral"@ {
        SqlToken::NationalStringLiteral
    } else if name == "QuoteDelimitedStringLiteral"@ {
        SqlToken::QuoteDelimitedStringLiteral
    } else if name == "NationalQuoteDelimitedStringLiteral"@ {
        SqlToken::NationalQuoteDelimitedStringLiteral
    } else if name == "EscapedStringLiteral"@ {
        SqlToken::EscapedStringLiteral
    } else if name == "UnicodeStringLiteral"@ {
        SqlToken::UnicodeStringLiteral
    } else if name == "HexStringLiteral"@ {
        SqlToken::HexStringLiteral
    } else if name == "Eq"@ {
        SqlToken::Eq
    } else if name == "Neq"@ {
        SqlToken::Neq
    } else if name == "Lt"@ {
        SqlToken::Lt
    } else if name == "Gt"@ {
        SqlToken::Gt
    } else if name == "LtEq"@ {
        SqlToken::LtEq
    } else if name == "GtEq"@ {
        SqlToken::GtEq
    } else if name == "Spaceship"@ {
        SqlToken::Spaceship
    } else if name == "Plus"@ {
        SqlToken::Plus
    } else if name == "Minus"@ {
        SqlToken::Minus
    } else if name == "Mul"@ {
        SqlToken::Mul
    } else if name == "Div"@ {
        SqlToken::Div
    } else if name == "DuckIntDiv"@ {
        SqlToken::DuckIntDiv
    } else if name == "Mod"@ {
        SqlToken::Mod
    } else if name == "StringConcat"@ {
        SqlToken::StringConcat
    } else if name == "DoubleColon"@ {
        SqlToken::DoubleColon
    } else if name == "Assignment"@ {
        SqlToken::Assignment
    } else if name == "Ampersand"@ {
        SqlToken::Ampersand
    } else if name == "Pipe"@ {
        SqlToken::Pipe
    } else if name == "Caret"@ {
        SqlToken::Caret
    } else if name == "RArrow"@ {
        SqlToken::RArrow
    } else if name == "Sharp"@ {
        SqlToken::Sharp
    } else if name == "DoubleSharp"@ {
        SqlToken::DoubleSharp
    } else if name == "Tilde"@ {
        SqlToken::Tilde
    } else if name == "TildeAsterisk"@ {
        SqlToken::TildeAsterisk
    } else if name == "ExclamationMarkTilde"@ {
        SqlToken::ExclamationMarkTilde
    } else if name == "ExclamationMarkTildeAsterisk"@ {
        SqlToken::ExclamationMarkTildeAsterisk
    } else if name == "DoubleTilde"@ {
        SqlToken::DoubleTilde
    } else if name == "DoubleTildeAsterisk"@ {
        SqlToken::DoubleTildeAsterisk
    } else if name == "ExclamationMarkDoubleTilde"@ {
        SqlToken::ExclamationMarkDoubleTilde
    } else if name == "ExclamationMarkDoubleTildeAsterisk"@ {
        SqlToken::ExclamationMarkDoubleTildeAsterisk
    } else if name == "ShiftLeft"@ {
        SqlToken::ShiftLeft
    } else if name == "ShiftRight"@ {
        SqlToken::ShiftRight
    } else if name == "Overlap"@ {
        SqlToken::Overlap
    } else if name == "ExclamationMark"@ {
        SqlToken::ExclamationMark
    } else if name == "DoubleExclamationMark"@ {
        SqlToken::DoubleExclamationMark
    } else if name == "AtSign"@ {
        SqlToken::AtSign
    } else if name == "CaretAt"@ {
        SqlToken::CaretAt
    } else if name == "PGSquareRoot"@ {
        SqlToken::PGSquareRoot
    } else if name == "PGCubeRoot"@ {
        SqlToken::PGCubeRoot
    } else if name == "Arrow"@ {
        SqlToken::Arrow
    } else if name == "LongArrow"@ {
        SqlToken::LongArrow
    } else if name == "HashArrow"@ {
        SqlToken::HashArrow
    } else if name == "HashLongArrow"@ {
        SqlToken::HashLongArrow
    } else if name == "AtArrow"@ {
        SqlToken::AtArrow
    } else if name == "ArrowAt"@ {
        SqlToken::ArrowAt
    } else if name == "HashMinus"@ {
        SqlToken::HashMinus
    } else if name == "AtQuestion"@ {
        SqlToken::AtQuestion
    } else if name == "AtAt"@ {
        SqlToken::AtAt
    } else if name == "Question"@ {
        SqlToken::Question
    } else if name == "QuestionAnd"@ {
        SqlToken::QuestionAnd
    } else if name == "QuestionPipe"@ {
        SqlToken::QuestionPipe
    } else if name == "CustomBinaryOperator"@ {
        SqlToken::CustomBinaryOperator
    } else if name == "LParen"@ {
        SqlToken::LParen
    } else if name == "Whitespace"@ {
        SqlToken::Whitespace
    } else {
        SqlToken::Other
    }
}

/// `t` is the kind of the token whose `Debug` rendering is `d`: a word with
/// its keyword, or the kind its variant names.
pub open spec fn debug_token(t: SqlToken, d: Seq<char>) -> bool {
    if debug_variant(d) == "Word"@ {
        t matches SqlToken::Word { keyword } && keyword@ == debug_keyword(d)
    } else {
        t == unit_kind(debug_variant(d))
    }
}

/// `toks` are the tokens `ts` names: each the kind of its rendering, with its
/// columns.
pub open spec fn placed_from(toks: Seq<PlacedToken>, ts: Seq<(Seq<char>, u64, u64)>) -> bool {
    &&& toks.len() == ts.len()
    &&& forall|i: int|
        0 <= i < ts.len() ==> debug_token((#[trigger] toks[i]).token, ts[i].0) && toks[i].start
            == ts[i].1 && toks[i].end == ts[i].2
}

/// The variant name a token's `Debug` rendering starts with.
fn variant_of(d: &str) -> (r: String)
    ensures
        r@ == debug_variant(d@),
{
    let cs = chars_of(d);
    let n = cs.len();
    let mut p: usize = 0;
    while p < n && cs[p] != '('
        invariant
            n == cs@.len(),
            cs@ == d@,
            p <= n,
            paren_from(d@, 0) == paren_from(d@, p as int),
        decreases n - p,
    {
        p += 1;
    }
    string_from_chars(&cs, 0, p)
}

/// Whether `c` can stand in a Rust identifier.
fn ident_char(c: char) -> (r: bool)
    ensures
        r == is_ident_char(c),
{
    ('a' <= c && c <= 'z') || ('A' <= c && c <= 'Z') || ('0' <= c && c <= '9') || c == '_'
}

/// The keyword at the end of a word's `Debug` rendering.
fn keyword_of_debug(d: &str) -> (r: String)
    ensures
        r@ == debug_keyword(d@),
{
    let cs = chars_of(d);
    let n = cs.len();
    if n < 3 || cs[n - 3] != ' ' || cs[n - 2] != '}' || cs[n - 1] != ')' {
        return String::new();
    }
    let e = n - 3;
    let mut k: usize = e;
    while k > 0 && ident_char(cs[k - 1])
        invariant
            n == cs@.len(),
            cs@ == d@,
            k <= e,
            e == n - 3,
            ident_start(d@, e as int) == ident_start(d@, k as int),
        decreases k,
    {
        k -= 1;
    }
    string_from_chars(&cs, k, e)
}

/// The kind a variant name other than `Word` names.
fn unit_kind_of(name: &str) -> (t: SqlToken)
    ensures
        t == unit_kind(name@),
{
    if str_eq(name, "Number") {
        SqlToken::Number
    } else if str_eq(name, "SingleQuotedString") {
        SqlToken::SingleQuotedString
    } else if str_eq(name, "DoubleQuotedString") {
        SqlToken::DoubleQuotedString
    } else if str_eq(name, "TripleSingleQuotedString") {
        SqlToken::TripleSingleQuotedString
    } else if str_eq(name, "TripleDoubleQuotedString") {
        SqlToken::TripleDoubleQuotedString
    } else if str_eq(name, "DollarQuotedString") {
        SqlToken::DollarQuotedString
    } else if str_eq(name, "SingleQuotedByteStringLiteral") {
        SqlToken::SingleQuotedByteStringLiteral
    } else if str_eq(name, "DoubleQuotedByteStringLiteral") {
        SqlToken::DoubleQuotedByteStringLiteral
    } else if str_eq(name, "TripleSingleQuotedByteStringLiteral") {
        SqlToken::TripleSingleQuotedByteStringLiteral
    } else if str_eq(name, "TripleDoubleQuotedByteStringLiteral") {
        SqlToken::TripleDoubleQuotedByteStringLiteral
    } else if str_eq(name, "SingleQuotedRawStringLiteral") {
        SqlToken::SingleQuotedRawStringLiteral
    } else if str_eq(name, "DoubleQuotedRawStringLiteral") {
        SqlToken::DoubleQuotedRawStringLiteral
    } else if str_eq(name, "TripleSingleQuotedRawStringLiteral") {
        SqlToken::TripleSingleQuotedRawStringLiteral
    } else if str_eq(name, "TripleDoubleQuotedRawStringLiteral") {
        SqlToken::TripleDoubleQuotedRawStringLiteral
    } else if str_eq(name, "NationalStringLiteral") {
        SqlToken::NationalStringLiteral
    } else if str_eq(name, "QuoteDelimitedStringLiteral") {
        SqlToken::QuoteDelimitedStringLiteral
    } else if str_eq(name, "NationalQuoteDelimitedStringLiteral") {
        SqlToken::NationalQuoteDelimitedStringLiteral
    } else if str_eq(name, "EscapedStringLiteral") {
        SqlToken::EscapedStringLiteral
    } else if str_eq(name, "UnicodeStringLiteral") {
        SqlToken::UnicodeStringLiteral
    } else if str_eq(name, "HexStringLiteral") {
        SqlToken::HexStringLiteral
    } else if str_eq(name, "Eq") {
        SqlToken::Eq
    } else if str_eq(name, "Neq") {
        SqlToken::Neq
    } else if str_eq(name, "Lt") {
        SqlToken::Lt
    } else if str_eq(name, "Gt") {
        SqlToken::Gt
    } else if str_eq(name, "LtEq") {
        SqlToken::LtEq
    } else if str_eq(name, "GtEq") {
        SqlToken::GtEq
    } else if str_eq(name, "Spaceship") {
        SqlToken::Spaceship
    } else if str_eq(name, "Plus") {
        SqlToken::Plus
    } else if str_eq(name, "Minus") {
        SqlToken::Minus
    } else if str_eq(name, "Mul") {
        SqlToken::Mul
    } else if str_eq(name, "Div") {
        SqlToken::Div
    } else if str_eq(name, "DuckIntDiv") {
        SqlToken::DuckIntDiv
    } else if str_eq(name, "Mod") {
        SqlToken::Mod
    } else if str_eq(name, "StringConcat") {
        SqlToken::StringConcat
    } else if str_eq(name, "DoubleColon") {
        SqlToken::DoubleColon
    } else if str_eq(name, "Assignment") {
        SqlToken::Assignment
    } else if str_eq(name, "Ampersand") {
        SqlToken::Ampersand
    } else if str_eq(name, "Pipe") {
        SqlToken::Pipe
    } else if str_eq(name, "Caret") {
        SqlToken::Caret
    } else if str_eq(name, "RArrow") {
        SqlToken::RArrow
    } else if str_eq(name, "Sharp") {
        SqlToken::Sharp
    } else if str_eq(name, "DoubleSharp") {
        SqlToken::DoubleSharp
    } else if str_eq(name, "Tilde") {
        SqlToken::Tilde
    } else if str_eq(name, "TildeAsterisk") {
        SqlToken::TildeAsterisk
    } else if str_eq(name, "ExclamationMarkTilde") {
        SqlToken::ExclamationMarkTilde
    } else if str_eq(name, "ExclamationMarkTildeAsterisk") {
        SqlToken::ExclamationMarkTildeAsterisk
    } else if str_eq(name, "DoubleTilde") {
        SqlToken::DoubleTilde
    } else if str_eq(name, "DoubleTildeAsterisk") {
        SqlToken::DoubleTildeAsterisk
    } else if str_eq(name, "ExclamationMarkDoubleTilde") {
        SqlToken::ExclamationMarkDoubleTilde
    } else if str_eq(name, "ExclamationMarkDoubleTildeAsterisk") {
        SqlToken::ExclamationMarkDoubleTildeAsterisk
    } else if str_eq(name, "ShiftLeft") {
        SqlToken::ShiftLeft
    } else if str_eq(name, "ShiftRight") {
        SqlToken::ShiftRight
    } else if str_eq(name, "Overlap") {
        SqlToken::Overlap
    } else if str_eq(name, "ExclamationMark") {
        SqlToken::ExclamationMark
    } else if str_eq(name, "DoubleExclamationMark") {
        SqlToken::DoubleExclamationMark
    } else if str_eq(name, "AtSign") {
        SqlToken::AtSign
    } else if str_eq(name, "CaretAt") {
        SqlToken::CaretAt
    } else if str_eq(name, "PGSquareRoot") {
        SqlToken::PGSquareRoot
    } else if str_eq(name, "PGCubeRoot") {
        SqlToken::PGCubeRoot
    } else if str_eq(name, "Arrow") {
        SqlToken::Arrow
    } else if str_eq(name, "LongArrow") {
        SqlToken::LongArrow
    } else if str_eq(name, "HashArrow") {
        SqlToken::HashArrow
    } else if str_eq(name, "HashLongArrow") {
        SqlToken::HashLongArrow
    } else if str_eq(name, "AtArrow") {
        SqlToken::AtArrow
    } else if str_eq(name, "ArrowAt") {
        SqlToken::ArrowAt
    } else if str_eq(name, "HashMinus") {
        SqlToken::HashMinus
    } else if str_eq(name, "AtQuestion") {
        SqlToken::AtQuestion
    } else if str_eq(name, "AtAt") {
        SqlToken::AtAt
    } else if str_eq(name, "Question") {
        SqlToken::Question
    } else if str_eq(name, "QuestionAnd") {
        SqlToken::QuestionAnd
    } else if str_eq(name, "QuestionPipe") {
        SqlToken::QuestionPipe
    } else if str_eq(name, "CustomBinaryOperator") {
        SqlToken::CustomBinaryOperator
    } else if str_eq(name, "LParen") {
        SqlToken::LParen
    } else if str_eq(name, "Whitespace") {
        SqlToken::Whitespace
    } else {
        SqlToken::Other
    }
}

/// The kind of the token whose `Debug` rendering is `d`.
fn token_of_debug(d: &str) -> (t: SqlToken)
    ensures
        debug_token(t, d@),
{
    let name = variant_of(d);
    if str_eq(name.as_str(), "Word") {
        SqlToken::Word { keyword: keyword_of_debug(d) }
    } else {
        unit_kind_of(name.as_str())
    }
}

/// The placed tokens a tokenized line names.
fn place_tokens(raw: &Vec<(String, u64, u64)>) -> (r: Vec<PlacedToken>)
    ensures
        placed_from(r@, raw@.map_values(|t: (String, u64, u64)| (t.0@, t.1, t.2))),
{
    let ghost ts = raw@.map_values(|t: (String, u64, u64)| (t.0@, t.1, t.2));
    let n = raw.len();
    let mut out: Vec<PlacedToken> = Vec::new();
    let mut i: usize = 0;
    while i < n
        invariant
            n == raw@.len(),
            ts == raw@.map_values(|t: (String, u64, u64)| (t.0@, t.1, t.2)),
            i <= n,
            out@.len() == i,
            forall|j: int|
                0 <= j < i ==> debug_token((#[trigger] out@[j]).token, ts[j].0) && out@[j].start
                    == ts[j].1 && out@[j].end == ts[j].2,
        decreases n - i,
    {
        let t = token_of_debug(raw[i].0.as_str());
        out.push(PlacedToken { token: t, start: raw[i].1, end: raw[i].2 });
        i += 1;
    }
    out
}

/// Highlights one line of the SQL editor: by sqlparser's tokens, or word by
/// word where the tokenizer rejects the line.
pub fn highlight_sql(line: &str) -> (r: Vec<Segment>)
    ensures
        match line_tokens(line@) {
            None => r@.map_values(|s: Segment| (s.text@, s.tone)) == words_from(line@, 0),
            Some(ts) => exists|toks: Seq<PlacedToken>|
                placed_from(toks, ts) && r@.map_values(|s: Segment| (s.text@, s.tone))
                    == token_segments(line@, toks, 0, 0),
        },
        forall|k: int| 0 <= k < r@.len() ==> !(#[trigger] r@[k]).bold,
{
    match tokenize_line(line) {
        None => highlight_sql_words(line),
        Some(raw) => {
            let toks = place_tokens(&raw);
            let r = highlight_tokens(line, toks.as_slice());
            assert(placed_from(toks@, line_tokens(line@)->0) && r@.map_values(
                |s: Segment| (s.text@, s.tone),
            ) == token_segments(line@, toks@, 0, 0));
            r
        },
    }
}

} // verus!
