use masql::ast::{Expression, Value};
use masql::error::ParseError;
use masql::function::{Function, parse_function, is_function};
use masql::keyword::{Keyword, parse_keyword};
use masql::lexer::lex;
use masql::statement_parser::{parse_select, parse_insert};
use masql::structs::{Condition, Statement};
use masql::symbol::{Symbol, parse_symbol};
use masql::token::Token;

fn all_symbols() -> Vec<Symbol> {
    vec![
        Symbol::Comma,
        Symbol::Dot,
        Symbol::Asterisk,
        Symbol::Plus,
        Symbol::Minus,
        Symbol::Slash,
        Symbol::Percent,
        Symbol::Equal,
        Symbol::NotEqual,
        Symbol::LessThan,
        Symbol::GreaterThan,
        Symbol::LessThanOrEqual,
        Symbol::GreaterThanOrEqual,
        Symbol::LeftParen,
        Symbol::RightParen,
        Symbol::Semicolon,
    ]
}

fn all_keywords() -> Vec<Keyword> {
    vec![
        Keyword::Select,
        Keyword::Insert,
        Keyword::Update,
        Keyword::Delete,
        Keyword::From,
        Keyword::Where,
        Keyword::GroupBy,
        Keyword::OrderBy,
        Keyword::Join,
        Keyword::Into,
        Keyword::InnerJoin,
        Keyword::LeftJoin,
        Keyword::RightJoin,
        Keyword::FullJoin,
        Keyword::Values,
        Keyword::On,
        Keyword::As,
        Keyword::Distinct,
        Keyword::All,
        Keyword::Exists,
        Keyword::Having,
        Keyword::Union,
        Keyword::Not,
        Keyword::And,
        Keyword::Or,
        Keyword::Asc,
        Keyword::Desc,
    ]
}

#[test]
fn symbol_text_relex_round_trip() {
    for sym in all_symbols() {
        let text = sym.to_text();
        assert_eq!(lex(&text), vec![Token::Symbol(sym)], "symbol {:?}", sym);
        assert_eq!(parse_symbol(&text), Some(sym), "symbol {:?}", sym);
    }
}

#[test]
fn keyword_text_relex_round_trip() {
    for kw in all_keywords() {
        let text = kw.to_text();
        assert_eq!(lex(&text), vec![Token::Keyword(kw)], "keyword {:?}", kw);
        assert_eq!(parse_keyword(&text), Some(kw), "keyword {:?}", kw);
    }
}

#[test]
fn keyword_parse_is_case_insensitive() {
    assert_eq!(parse_keyword("select"), Some(Keyword::Select));
    assert_eq!(parse_keyword("SeLeCt"), Some(Keyword::Select));
    assert_eq!(parse_keyword("group by"), Some(Keyword::GroupBy));
    assert_eq!(parse_keyword("Order By"), Some(Keyword::OrderBy));
    assert_eq!(parse_keyword("left Join"), Some(Keyword::LeftJoin));
    assert_eq!(parse_keyword("left outer join"), Some(Keyword::LeftJoin));
    assert_eq!(parse_keyword("order"), None);
}

#[test]
fn function_name_round_trip() {
    let functions = vec![
        Function::Sum,
        Function::Avg,
        Function::Count,
        Function::Max,
        Function::Min,
        Function::Concat,
    ];
    for f in functions {
        let text = f.to_text();
        assert_eq!(parse_function(&text), Some(f), "function {:?}", f);
        assert!(is_function(&text));
    }
    assert_eq!(parse_function("TOTALLY"), None);
    assert!(!is_function("xyz"));
}

#[test]
fn function_name_ignores_surrounding_whitespace() {
    assert!(is_function(" SUM "));
    assert_eq!(parse_function("\t sum \n"), Some(Function::Sum));
    assert_eq!(parse_function("S UM"), None);
}

#[test]
fn parse_is_idempotent() {
    let text = "SELECT a, b FROM t WHERE a = 1 + 2 * 3 ORDER BY a ASC;";
    let first = parse_select(&lex(text));
    let second = parse_select(&lex(text));
    assert_eq!(first, second);

    let insert_text = "INSERT INTO t (a) VALUES (1);";
    let first_insert = parse_insert(&lex(insert_text));
    let second_insert = parse_insert(&lex(insert_text));
    assert_eq!(first_insert, second_insert);
}

fn filter_of(stmt: Statement) -> Condition {
    match stmt {
        Statement::Select { filter: Some(cond), .. } => cond,
        other => panic!("expected a filtered select, got {:?}", other),
    }
}

fn num(text: &str) -> Expression {
    Expression::Value(Value::Number(text.to_string()))
}

#[test]
fn parens_override_precedence() {
    let stmt = parse_select(&lex("SELECT a FROM t WHERE a = (1 + 2) * 3;")).unwrap();
    let expected = Condition::Comparison {
        left: Expression::Value(Value::Identifier("a".to_string())),
        operator: Symbol::Equal,
        right: Expression::BinaryOp(
            Symbol::Asterisk,
            Box::new(Expression::BinaryOp(
                Symbol::Plus,
                Box::new(num("1")),
                Box::new(num("2")),
            )),
            Box::new(num("3")),
        ),
    };
    assert_eq!(filter_of(stmt), expected);
}

#[test]
fn binary_operators_fold_left() {
    let stmt = parse_select(&lex("SELECT a FROM t WHERE a = 1 - 2 - 3;")).unwrap();
    let expected = Condition::Comparison {
        left: Expression::Value(Value::Identifier("a".to_string())),
        operator: Symbol::Equal,
        right: Expression::BinaryOp(
            Symbol::Minus,
            Box::new(Expression::BinaryOp(
                Symbol::Minus,
                Box::new(num("1")),
                Box::new(num("2")),
            )),
            Box::new(num("3")),
        ),
    };
    assert_eq!(filter_of(stmt), expected);
}

#[test]
fn unary_sign_binds_tightest() {
    let stmt = parse_select(&lex("SELECT a FROM t WHERE a = - -5 * 2;")).unwrap();
    let expected = Condition::Comparison {
        left: Expression::Value(Value::Identifier("a".to_string())),
        operator: Symbol::Equal,
        right: Expression::BinaryOp(
            Symbol::Asterisk,
            Box::new(Expression::UnaryOp(
                Symbol::Minus,
                Box::new(Expression::UnaryOp(Symbol::Minus, Box::new(num("5")))),
            )),
            Box::new(num("2")),
        ),
    };
    assert_eq!(filter_of(stmt), expected);
}

#[test]
fn function_arity_is_checked() {
    let wrong_arity = lex("SELECT SUM(1,2) FROM t;");
    assert_eq!(parse_select(&wrong_arity), Err(ParseError::IncorrectArgCount(1)));
    let empty_concat = lex("SELECT CONCAT( ) FROM t;");
    assert_eq!(parse_select(&empty_concat), Err(ParseError::IncorrectArgCount(1)));
    let variable_concat = lex("SELECT CONCAT(a, b, c) FROM t;");
    assert!(parse_select(&variable_concat).is_ok());
}

#[test]
fn unmatched_paren_in_condition() {
    let tokens = lex("SELECT a FROM t WHERE (a = 1;");
    assert_eq!(
        parse_select(&tokens),
        Err(ParseError::MissingToken(Token::Symbol(Symbol::RightParen)))
    );
}

#[test]
fn condition_folds_as_encountered() {
    let stmt = parse_select(&lex("SELECT x FROM t WHERE a = 1 AND b = 2 OR c = 3;")).unwrap();
    match filter_of(stmt) {
        Condition::And { left, right } => {
            assert!(matches!(*left, Condition::Comparison { .. }));
            assert!(matches!(*right, Condition::Or { .. }));
        },
        other => panic!("expected a top-level AND, got {:?}", other),
    }
}

#[test]
fn condition_not_and_parens() {
    let stmt = parse_select(&lex("SELECT x FROM t WHERE NOT (a = 1);")).unwrap();
    match filter_of(stmt) {
        Condition::Not(inner) => {
            assert!(matches!(*inner, Condition::Comparison { .. }));
        },
        other => panic!("expected a NOT, got {:?}", other),
    }
}

#[test]
fn comments_skipped_in_conditions() {
    let stmt = parse_select(&lex("SELECT x FROM t WHERE a = 1 -- note\n AND b = 2;"));
    assert!(stmt.is_ok(), "got {:?}", stmt);
}
