use masql::ast::{Expression, Value};
use masql::error::ParseError;
use masql::keyword::Keyword;
use masql::lexer::lex;
use masql::statement_parser::parse_select;
use masql::structs::{Projection, Sort, Statement, Condition};
use masql::symbol::Symbol;
use masql::token::Token;

fn ident(name: &str) -> Expression {
    Expression::Value(Value::Identifier(name.to_string()))
}

fn num(text: &str) -> Expression {
    Expression::Value(Value::Number(text.to_string()))
}

#[test]
fn select_test_insert() {
    let result = lex(
        "
    SELECT DISTINCT SUM(score) AS score, age
        -- test
        FROM students, teachers
        WHERE @age = (2-1) * SUM(score)
        GROUP BY name, age
        HAVING age > 14
        ORDER BY name ASC, age DESC;
    ",
    );
    println!("{:?}", result);
    let ast = parse_select(&result);
    if let Err(e) = ast {
        println!("{:?}", e);
    } else if let Ok(r) = ast {
        println!("{:?}", r);
    }
}

#[test]
fn select_with_arithmetic_filter() {
    let tokens = lex("SELECT a, b FROM t WHERE a = 1 + 2 * 3;");
    let stmt = parse_select(&tokens).unwrap();
    let expected_filter = Condition::Comparison {
        left: ident("a"),
        operator: Symbol::Equal,
        right: Expression::BinaryOp(
            Symbol::Plus,
            Box::new(num("1")),
            Box::new(Expression::BinaryOp(
                Symbol::Asterisk,
                Box::new(num("2")),
                Box::new(num("3")),
            )),
        ),
    };
    assert_eq!(
        stmt,
        Statement::Select {
            distinct: false,
            projections: Projection::Columns(vec![(ident("a"), None), (ident("b"), None)]),
            tables: vec![(ident("t"), None)],
            filter: Some(expected_filter),
            group_by: Projection::AllColumns,
            having: None,
            order_by: None,
        }
    );
}

#[test]
fn select_missing_terminator() {
    let tokens = lex("SELECT a FROM t");
    assert_eq!(parse_select(&tokens), Err(ParseError::MissingTerminator));
}

#[test]
fn select_full_clauses() {
    let tokens = lex(
        "SELECT DISTINCT a AS x, b FROM t, u WHERE a = 1 GROUP BY a, b HAVING b = 2 ORDER BY a ASC, b DESC;",
    );
    let stmt = parse_select(&tokens).unwrap();
    match stmt {
        Statement::Select { distinct, projections, tables, filter, group_by, having, order_by } => {
            assert!(distinct);
            assert_eq!(
                projections,
                Projection::Columns(vec![(ident("a"), Some(ident("x"))), (ident("b"), None)])
            );
            assert_eq!(tables, vec![(ident("t"), None), (ident("u"), None)]);
            assert!(filter.is_some());
            assert_eq!(
                group_by,
                Projection::Columns(vec![(ident("a"), None), (ident("b"), None)])
            );
            assert!(having.is_some());
            assert_eq!(
                order_by,
                Some(vec![("a".to_string(), Sort::Asc), ("b".to_string(), Sort::Desc)])
            );
        },
        other => panic!("expected a select, got {:?}", other),
    }
}

#[test]
fn select_star_projection() {
    let tokens = lex("SELECT * FROM t;");
    let stmt = parse_select(&tokens).unwrap();
    match stmt {
        Statement::Select { projections, .. } => {
            assert_eq!(projections, Projection::AllColumns);
        },
        other => panic!("expected a select, got {:?}", other),
    }
}

#[test]
fn select_missing_from() {
    let tokens = lex("SELECT a;");
    assert_eq!(
        parse_select(&tokens),
        Err(ParseError::MissingToken(Token::Keyword(Keyword::From)))
    );
}

#[test]
fn select_missing_table() {
    let tokens = lex("SELECT a FROM;");
    assert_eq!(parse_select(&tokens), Err(ParseError::MissingTable));
}

#[test]
fn select_wrong_leading_keyword() {
    let tokens = lex("INSERT INTO t VALUES (1);");
    assert_eq!(
        parse_select(&tokens),
        Err(ParseError::UnexpectedToken(Token::Keyword(Keyword::Insert)))
    );
}

#[test]
fn select_empty_input() {
    let tokens = lex("");
    assert_eq!(
        parse_select(&tokens),
        Err(ParseError::MissingToken(Token::Keyword(Keyword::Select)))
    );
}

#[test]
fn select_order_by_errors() {
    let missing_sort = lex("SELECT a FROM t ORDER BY a");
    assert_eq!(parse_select(&missing_sort), Err(ParseError::MissingSort));
    let missing_column = lex("SELECT a FROM t ORDER BY");
    assert_eq!(parse_select(&missing_column), Err(ParseError::MissingColumn));
    let sortless_column = lex("SELECT a FROM t ORDER BY a;");
    assert_eq!(parse_select(&sortless_column), Err(ParseError::MissingSort));
    let sortless_mid_list = lex("SELECT a FROM t ORDER BY a, b ASC;");
    assert_eq!(parse_select(&sortless_mid_list), Err(ParseError::MissingSort));
}

#[test]
fn select_where_errors() {
    let empty_condition = lex("SELECT a FROM t WHERE ;");
    assert_eq!(parse_select(&empty_condition), Err(ParseError::IncorrectCondition));
    let no_comparator = lex("SELECT a FROM t WHERE a");
    assert_eq!(parse_select(&no_comparator), Err(ParseError::MissingComparator));
    let broken_expression = lex("SELECT a +");
    assert_eq!(parse_select(&broken_expression), Err(ParseError::IncorrectExpression));
}
