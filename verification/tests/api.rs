use masql::chars::CharClass;
use masql::clause_parser::parse_table;
use masql::cursor::Cursor;
use masql::error::ParseError;
use masql::keyword::{Keyword, KeywordExt};
use masql::lexer::lex;
use masql::symbol::{Symbol, parse_symbol};
use masql::token::{Token, SqlCharExt, SqlStringExt, collect_until, collect_to};

#[test]
fn symbol_classification() {
    assert!(Symbol::Plus.is_operator());
    assert!(!Symbol::Equal.is_operator());
    assert!(Symbol::LessThanOrEqual.is_comparator());
    assert!(!Symbol::Comma.is_comparator());
    assert_eq!(Symbol::Plus.get_priority(), 1);
    assert_eq!(Symbol::Minus.get_priority(), 1);
    assert_eq!(Symbol::Asterisk.get_priority(), 2);
    assert_eq!(Symbol::Slash.get_priority(), 2);
    assert_eq!(Symbol::Equal.get_priority(), 0);
    assert_eq!(parse_symbol("<="), Some(Symbol::LessThanOrEqual));
    assert_eq!(parse_symbol("<>"), None);
}

#[test]
fn char_classification() {
    assert!('*'.is_symbol());
    assert!('!'.is_symbol());
    assert_eq!('!'.as_symbol(), None);
    assert_eq!('*'.as_symbol(), Some(Symbol::Asterisk));
    assert!(';'.is_terminator());
    assert!('/'.is_terminator());
    assert!(!'a'.is_symbol());
}

#[test]
fn string_classification() {
    let select = "select".to_string();
    assert!(select.is_keyword());
    assert_eq!(select.as_keyword(), Some(Keyword::Select));
    let group_by = "group by".to_string();
    assert_eq!(group_by.as_keyword(), Some(Keyword::GroupBy));
    let bare_group = "group".to_string();
    assert_eq!(bare_group.as_keyword(), None);
    let sum = "sum".to_string();
    assert!(sum.is_function());
    let ne = "!=".to_string();
    assert_eq!(ne.as_symbol(), Some(Symbol::NotEqual));
    let name = "person".to_string();
    assert!(!name.is_keyword());
    assert_eq!(name.as_function(), None);
}

#[test]
fn compound_prefix_words() {
    assert!("group".to_string().has_suffix());
    assert!("OUTER".to_string().has_suffix());
    assert!(!"select".to_string().has_suffix());
}

#[test]
fn collect_helpers() {
    let chars: Vec<char> = "abc12 rest".chars().collect();
    let (word, after_word) = collect_until(&chars, 0, CharClass::Word);
    assert_eq!(word, "abc12");
    assert_eq!(after_word, 5);
    let (through, after_through) = collect_to(&chars, 0, CharClass::Word);
    assert_eq!(through, "abc12 ");
    assert_eq!(after_through, 6);
    let (rest, end) = collect_until(&chars, 6, CharClass::Word);
    assert_eq!(rest, "rest");
    assert_eq!(end, 10);
}

#[test]
fn cursor_walks_forward() {
    let tokens = lex("SELECT a;");
    let mut c = Cursor::new(&tokens);
    assert_eq!(c.peek(), Some(&Token::Keyword(Keyword::Select)));
    assert_eq!(c.next(), Some(&Token::Keyword(Keyword::Select)));
    assert_eq!(c.next(), Some(&Token::Identifier("a".to_string())));
    assert!(c.next().unwrap().is_terminator());
    assert_eq!(c.next(), None);
    assert_eq!(c.peek(), None);
}

#[test]
fn parse_table_consumes_the_offending_token() {
    let tokens = lex("123 t");
    let mut c = Cursor::new(&tokens);
    assert_eq!(
        parse_table(&mut c),
        Err(ParseError::MissingToken(Token::Identifier("Table name".to_string())))
    );
    // the number was consumed; the identifier after it is next
    assert_eq!(c.peek(), Some(&Token::Identifier("t".to_string())));
    assert_eq!(parse_table(&mut c), Ok("t".to_string()));
    assert_eq!(c.peek(), None);
}

#[test]
fn token_accessors() {
    let t = Token::Symbol(Symbol::Plus);
    assert!(t.is_operator());
    assert_eq!(t.as_symbol(), Some(Symbol::Plus));
    assert_eq!(t.as_keyword(), None);
    let k = Token::Keyword(Keyword::From);
    assert_eq!(k.as_keyword(), Some(Keyword::From));
    assert!(!k.is_operator());
    assert!(Token::Symbol(Symbol::Slash).is_terminator());
    assert!(!Token::Symbol(Symbol::Asterisk).is_terminator());
}

#[test]
fn keyword_and_symbol_text() {
    assert_eq!(Keyword::LeftJoin.to_text(), "LEFT JOIN");
    assert_eq!(Keyword::Desc.to_text(), "DESC");
    assert_eq!(Symbol::GreaterThanOrEqual.to_text(), ">=");
    assert_eq!(Token::Keyword(Keyword::GroupBy).to_text(), "GROUP BY");
    assert_eq!(Token::Identifier("person".to_string()).to_text(), "person");
    assert_eq!(Token::Number("3.14".to_string()).to_text(), "3.14");
}
