use lazysql::ui::highlight::{
    highlight_sql, highlight_sql_words, highlight_tokens, is_sql_word_char, keyword_tone, token_tone, PlacedToken, SqlToken,
};
use lazysql::ui::view::Tone;

fn word(k: &str) -> SqlToken {
    SqlToken::Word { keyword: k.to_string() }
}

#[test]
fn keyword_groups_get_their_tones() {
    assert_eq!(keyword_tone("CREATE"), Some(Tone::Orange));
    assert_eq!(keyword_tone("WHERE"), Some(Tone::Blue));
    assert_eq!(keyword_tone("SELECT"), Some(Tone::Purple));
    assert_eq!(keyword_tone("ILIKE"), Some(Tone::Purple));
    assert_eq!(keyword_tone("NoKeyword"), None);
}

#[test]
fn function_calls_literals_and_operators() {
    assert_eq!(token_tone(&word("COUNT"), Some(&SqlToken::LParen)), Some(Tone::Aqua));
    assert_eq!(token_tone(&word("NoKeyword"), Some(&SqlToken::LParen)), Some(Tone::Aqua));
    assert_eq!(token_tone(&SqlToken::Number, None), Some(Tone::Green));
    assert_eq!(token_tone(&SqlToken::SingleQuotedString, None), Some(Tone::Green));
    assert_eq!(token_tone(&SqlToken::Eq, None), Some(Tone::Yellow));
    assert_eq!(token_tone(&SqlToken::Other, None), None);
}

fn text_with_tone(text: &str, tone: Tone) -> Vec<String> {
    highlight_sql(text).into_iter().filter(|s| s.tone == Some(tone)).map(|s| s.text).collect()
}

#[test]
fn highlights_sqlparser_keyword_not_in_local_legacy_list() {
    assert_eq!(text_with_tone("name ILIKE '%foo%'", Tone::Purple), vec!["ILIKE"]);
}

#[test]
fn does_not_highlight_keyword_suffix_inside_identifier() {
    assert!(text_with_tone("sas", Tone::Purple).is_empty());
}

#[test]
fn does_not_highlight_keyword_prefix_inside_identifier() {
    assert!(text_with_tone("selectable", Tone::Purple).is_empty());
}

#[test]
fn highlights_ddl_keywords_with_ddl_color() {
    assert_eq!(text_with_tone("CREATE TABLE users (id int)", Tone::Orange), vec!["CREATE", "TABLE"]);
}

#[test]
fn highlights_clause_keywords_with_clause_color() {
    assert_eq!(text_with_tone("SELECT id FROM users WHERE id = 1", Tone::Blue), vec!["FROM", "WHERE"]);
}

#[test]
fn highlights_function_calls_with_function_color() {
    assert_eq!(
        text_with_tone("SELECT count(id), custom_fn(id) FROM users", Tone::Aqua),
        vec!["count", "custom_fn"]
    );
}

#[test]
fn highlights_literals_and_operators_with_their_own_colors() {
    assert_eq!(text_with_tone("SELECT id = 42 AND name = 'Ada'", Tone::Green), vec!["42", "'Ada'"]);
    assert_eq!(text_with_tone("SELECT id = 42 AND name = 'Ada'", Tone::Yellow), vec!["=", "="]);
}

#[test]
fn word_fallback_tones_keywords_by_word() {
    let segs = highlight_sql_words("name ILIKE x");
    let purple: Vec<&str> = segs.iter().filter(|s| s.tone == Some(Tone::Purple)).map(|s| s.text.as_str()).collect();
    assert_eq!(purple, vec!["ILIKE"]);
}

#[test]
fn rejected_line_is_highlighted_word_by_word() {
    let line = "SELECT 'unterminated";
    let a: Vec<(String, Option<Tone>)> = highlight_sql(line).into_iter().map(|s| (s.text, s.tone)).collect();
    let b: Vec<(String, Option<Tone>)> = highlight_sql_words(line).into_iter().map(|s| (s.text, s.tone)).collect();
    assert_eq!(a, b);
}

#[test]
fn tokens_split_line_into_toned_segments() {
    let toks = vec![
        PlacedToken { token: word("SELECT"), start: 1, end: 7 },
        PlacedToken { token: SqlToken::Whitespace, start: 7, end: 8 },
        PlacedToken { token: word("NoKeyword"), start: 8, end: 10 },
        PlacedToken { token: SqlToken::Whitespace, start: 10, end: 11 },
        PlacedToken { token: SqlToken::Eq, start: 11, end: 12 },
        PlacedToken { token: SqlToken::Number, start: 13, end: 15 },
    ];
    let segs = highlight_tokens("SELECT id = 42;", &toks);
    let got: Vec<(&str, Option<Tone>)> = segs.iter().map(|s| (s.text.as_str(), s.tone)).collect();
    assert_eq!(
        got,
        vec![
            ("SELECT", Some(Tone::Purple)),
            (" ", None),
            ("id", None),
            (" ", None),
            ("=", Some(Tone::Yellow)),
            (" ", None),
            ("42", Some(Tone::Green)),
            (";", None),
        ]
    );
    assert!(is_sql_word_char('_'));
    assert!(!is_sql_word_char('é'));
}
