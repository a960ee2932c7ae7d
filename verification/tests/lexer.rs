use masql::lexer::lex;
use masql::statement_parser::parse_insert;
use masql::function::Function;
use masql::keyword::Keyword;
use masql::symbol::Symbol;
use masql::token::Token;

#[test]
fn test_lex() {
    let result = lex("INSERT INTO students (name, age) VALUES ('John Doe', 21) ;");
    println!("{:?}", result);
    let ast = parse_insert(&result);
    if let Err(e) = ast {
        println!("{:?}", e);
    } else if let Ok(r) = ast {
        println!("{:?}", r);
    }
}

#[test]
fn lex_select_star() {
    let tokens = lex("SELECT * FROM t;");
    assert_eq!(
        tokens,
        vec![
            Token::Keyword(Keyword::Select),
            Token::Symbol(Symbol::Asterisk),
            Token::Keyword(Keyword::From),
            Token::Identifier("t".to_string()),
            Token::Symbol(Symbol::Semicolon),
        ]
    );
}

#[test]
fn lex_empty_text() {
    assert_eq!(lex(""), Vec::<Token>::new());
    assert_eq!(lex("   \t\r\n"), Vec::<Token>::new());
}

#[test]
fn lex_compound_keywords() {
    assert_eq!(lex("GROUP BY"), vec![Token::Keyword(Keyword::GroupBy)]);
    assert_eq!(lex("ORDER BY"), vec![Token::Keyword(Keyword::OrderBy)]);
    assert_eq!(lex("LEFT JOIN"), vec![Token::Keyword(Keyword::LeftJoin)]);
    assert_eq!(lex("LEFT OUTER JOIN"), vec![Token::Keyword(Keyword::LeftJoin)]);
    assert_eq!(lex("INNER JOIN"), vec![Token::Keyword(Keyword::InnerJoin)]);
}

#[test]
fn lex_bare_prefix_is_identifier() {
    assert_eq!(
        lex("GROUP x"),
        vec![
            Token::Identifier("GROUP".to_string()),
            Token::Identifier("x".to_string()),
        ]
    );
}

#[test]
fn lex_comment_preserved() {
    assert_eq!(
        lex("-- note\nSELECT"),
        vec![
            Token::Comment(" note".to_string()),
            Token::Keyword(Keyword::Select),
        ]
    );
}

#[test]
fn lex_quoted_literal_and_variable() {
    assert_eq!(
        lex("'John Doe' @age \"x y\""),
        vec![
            Token::Identifier("John Doe".to_string()),
            Token::Variable("age".to_string()),
            Token::Identifier("x y".to_string()),
        ]
    );
}

#[test]
fn lex_numbers_kept_raw() {
    assert_eq!(
        lex("12 3.14 1.2.3"),
        vec![
            Token::Number("12".to_string()),
            Token::Number("3.14".to_string()),
            Token::Number("1.2.3".to_string()),
        ]
    );
}

#[test]
fn lex_terminator_never_joins_symbol_run() {
    assert_eq!(
        lex("!=;"),
        vec![
            Token::Symbol(Symbol::NotEqual),
            Token::Symbol(Symbol::Semicolon),
        ]
    );
    assert_eq!(
        lex("a/b"),
        vec![
            Token::Identifier("a".to_string()),
            Token::Symbol(Symbol::Slash),
            Token::Identifier("b".to_string()),
        ]
    );
}

#[test]
fn lex_unknown_symbol_run_dropped() {
    assert_eq!(
        lex("a ! b"),
        vec![
            Token::Identifier("a".to_string()),
            Token::Identifier("b".to_string()),
        ]
    );
    // Adjacent symbol characters form one run; a run that spells no known
    // symbol is dropped whole.
    assert_eq!(lex("()"), Vec::<Token>::new());
}

#[test]
fn lex_function_name_needs_paren() {
    assert_eq!(
        lex("SUM(x)"),
        vec![
            Token::Function(Function::Sum),
            Token::Symbol(Symbol::LeftParen),
            Token::Identifier("x".to_string()),
            Token::Symbol(Symbol::RightParen),
        ]
    );
    assert_eq!(lex("SUM"), vec![Token::Identifier("SUM".to_string())]);
}

#[test]
fn lex_unterminated_quote_takes_rest() {
    assert_eq!(lex("'abc"), vec![Token::Identifier("abc".to_string())]);
}

#[test]
fn lex_bare_variable_marker() {
    assert_eq!(lex("@"), vec![Token::Variable(String::new())]);
    assert_eq!(lex("@x1_y"), vec![Token::Variable("x1_y".to_string())]);
}

#[test]
fn lex_unicode_identifiers() {
    assert_eq!(lex("café"), vec![Token::Identifier("café".to_string())]);
    assert_eq!(lex("@café"), vec![Token::Variable("café".to_string())]);
    assert_eq!(
        lex("SELECT straße FROM t;"),
        vec![
            Token::Keyword(Keyword::Select),
            Token::Identifier("straße".to_string()),
            Token::Keyword(Keyword::From),
            Token::Identifier("t".to_string()),
            Token::Symbol(Symbol::Semicolon),
        ]
    );
}

#[test]
fn lex_case_insensitive_keywords() {
    assert_eq!(
        lex("select From"),
        vec![
            Token::Keyword(Keyword::Select),
            Token::Keyword(Keyword::From),
        ]
    );
}
