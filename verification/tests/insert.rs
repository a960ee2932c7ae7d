use masql::error::ParseError;
use masql::lexer::lex;
use masql::statement_parser::{parse_insert, parse_update, parse_delete};
use masql::structs::Statement;

#[test]
fn insert_test_insert() {
    let result = lex("INSERT INTO students (name, age) VALUES ('John Doe', 21) ;");
    println!("{:?}", result);
    let ast = parse_insert(&result);
    if let Err(e) = ast {
        println!("{:?}", e);
    } else if let Ok(r) = ast {
        println!("{:?}", r);
    }
}

#[test]
fn insert_with_columns() {
    let tokens = lex("INSERT INTO students (name, age) VALUES ('John Doe', 21) ;");
    let stmt = parse_insert(&tokens).unwrap();
    assert_eq!(
        stmt,
        Statement::Insert {
            table: "students".to_string(),
            column_value_pairs: vec![
                (Some("name".to_string()), "John Doe".to_string()),
                (Some("age".to_string()), "21".to_string()),
            ],
        }
    );
}

#[test]
fn insert_without_columns() {
    let tokens = lex("INSERT INTO t VALUES (1, 2);");
    let stmt = parse_insert(&tokens).unwrap();
    assert_eq!(
        stmt,
        Statement::Insert {
            table: "t".to_string(),
            column_value_pairs: vec![
                (None, "1".to_string()),
                (None, "2".to_string()),
            ],
        }
    );
}

#[test]
fn insert_value_count_mismatch() {
    let tokens = lex("INSERT INTO t (a,b) VALUES (1,2,3);");
    assert_eq!(parse_insert(&tokens), Err(ParseError::IncorrectValueCount(2)));
}

#[test]
fn insert_empty_values() {
    let tokens = lex("INSERT INTO t VALUES ( );");
    assert_eq!(parse_insert(&tokens), Err(ParseError::MissingValue));
}

#[test]
fn insert_without_terminator_accepted() {
    let tokens = lex("INSERT INTO t VALUES (1)");
    assert!(parse_insert(&tokens).is_ok());
}

#[test]
fn update_and_delete_are_unsupported() {
    let tokens = lex("UPDATE t;");
    assert_eq!(
        parse_update(&tokens),
        Err(ParseError::SyntaxError("UPDATE is not supported".to_string()))
    );
    assert_eq!(
        parse_delete(&tokens),
        Err(ParseError::SyntaxError("DELETE is not supported".to_string()))
    );
}
