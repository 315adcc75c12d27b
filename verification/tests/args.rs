use libfsm_api::args::{ArgError, ParsedLit, PcreArgParser, Token};
use libfsm_api::codegen::wrap_code;

#[test]
fn parses_name_comma_string() {
    let mut p = PcreArgParser::default();
    assert_eq!(p.push(Token::Ident("find_john".to_string())), Ok(()));
    assert_eq!(p.push(Token::Punct(',')), Ok(()));
    assert_eq!(p.push(Token::Literal("\"john\"".to_string())), Ok(()));
    let (name, pattern) = p.finish().unwrap();
    assert_eq!(name, "find_john");
    assert_eq!(pattern, b"john".to_vec());
}

#[test]
fn parses_byte_string_pattern() {
    let mut p = PcreArgParser::default();
    assert_eq!(p.push(Token::Ident("find_jimmy".to_string())), Ok(()));
    assert_eq!(p.push(Token::Punct(',')), Ok(()));
    assert_eq!(p.push(Token::Literal("b\"jimmy\"".to_string())), Ok(()));
    let (name, pattern) = p.finish().unwrap();
    assert_eq!(name, "find_jimmy");
    assert_eq!(pattern, b"jimmy".to_vec());
}

#[test]
fn string_escapes_are_decoded() {
    let mut p = PcreArgParser::default();
    assert_eq!(p.push(Token::Ident("f".to_string())), Ok(()));
    assert_eq!(p.push(Token::Punct(',')), Ok(()));
    assert_eq!(p.push(Token::Literal("\"a\\nb\\t\"".to_string())), Ok(()));
    let (_, pattern) = p.finish().unwrap();
    assert_eq!(pattern, b"a\nb\t".to_vec());
}

#[test]
fn raw_string_pattern_keeps_backslashes() {
    let mut p = PcreArgParser::default();
    assert_eq!(p.push(Token::Ident("f".to_string())), Ok(()));
    assert_eq!(p.push(Token::Punct(',')), Ok(()));
    assert_eq!(p.push(Token::Literal("r\"a\\d+\"".to_string())), Ok(()));
    let (_, pattern) = p.finish().unwrap();
    assert_eq!(pattern, b"a\\d+".to_vec());
}

#[test]
fn first_token_must_be_ident() {
    let mut p = PcreArgParser::default();
    assert_eq!(p.push(Token::Punct(',')), Err(ArgError::ExpectedIdent));
    assert!(p.finish().is_none());
}

#[test]
fn second_token_must_be_comma() {
    let mut p = PcreArgParser::default();
    assert_eq!(p.push(Token::Ident("f".to_string())), Ok(()));
    assert_eq!(p.push(Token::Punct(';')), Err(ArgError::ExpectedComma));
}

#[test]
fn non_string_literal_is_rejected() {
    let mut p = PcreArgParser::default();
    assert_eq!(p.push(Token::Ident("f".to_string())), Ok(()));
    assert_eq!(p.push(Token::Punct(',')), Ok(()));
    assert_eq!(
        p.push(Token::Literal("42".to_string())),
        Err(ArgError::ExpectedStringLiteral)
    );
}

#[test]
fn bool_ident_parses_as_literal_of_wrong_kind() {
    // `true` is a valid (boolean) literal, so it is recognized as a literal
    // but rejected for not being a string.
    let mut p = PcreArgParser::default();
    assert_eq!(p.push(Token::Ident("f".to_string())), Ok(()));
    assert_eq!(p.push(Token::Punct(',')), Ok(()));
    assert_eq!(
        p.push(Token::Ident("true".to_string())),
        Err(ArgError::ExpectedStringLiteral)
    );
}

#[test]
fn non_literal_pattern_is_invalid() {
    let mut p = PcreArgParser::default();
    assert_eq!(p.push(Token::Ident("f".to_string())), Ok(()));
    assert_eq!(p.push(Token::Punct(',')), Ok(()));
    assert_eq!(
        p.push(Token::Ident("not_a_literal".to_string())),
        Err(ArgError::InvalidLiteral)
    );
    let mut q = PcreArgParser::default();
    assert_eq!(q.push(Token::Ident("f".to_string())), Ok(()));
    assert_eq!(q.push(Token::Punct(',')), Ok(()));
    assert_eq!(q.push(Token::Group), Err(ArgError::InvalidLiteral));
}

#[test]
fn token_after_pattern_is_trailing_input() {
    let mut p = PcreArgParser::default();
    assert_eq!(p.push(Token::Ident("f".to_string())), Ok(()));
    assert_eq!(p.push(Token::Punct(',')), Ok(()));
    assert_eq!(p.push(Token::Literal("\"x\"".to_string())), Ok(()));
    assert_eq!(
        p.push(Token::Ident("extra".to_string())),
        Err(ArgError::TrailingInput)
    );
}

#[test]
fn error_resets_parser_to_start() {
    let mut p = PcreArgParser::default();
    assert_eq!(p.push(Token::Ident("f".to_string())), Ok(()));
    assert_eq!(p.push(Token::Punct(';')), Err(ArgError::ExpectedComma));
    // after the error, the parser expects a name again
    assert_eq!(p.push(Token::Ident("g".to_string())), Ok(()));
    assert_eq!(p.push(Token::Punct(',')), Ok(()));
    assert_eq!(p.push(Token::Literal("\"y\"".to_string())), Ok(()));
    let (name, pattern) = p.finish().unwrap();
    assert_eq!(name, "g");
    assert_eq!(pattern, b"y".to_vec());
}

#[test]
fn unfinished_parse_yields_nothing() {
    let mut p = PcreArgParser::default();
    assert!(p.push(Token::Ident("f".to_string())).is_ok());
    assert!(p.finish().is_none());
    let mut q = PcreArgParser::default();
    assert!(q.push(Token::Ident("f".to_string())).is_ok());
    assert!(q.push(Token::Punct(',')).is_ok());
    assert!(q.finish().is_none());
}

#[test]
fn resolve_pattern_accepts_only_string_contents() {
    let (st, r) = PcreArgParser::resolve_pattern("n".to_string(), ParsedLit::Str(vec![1, 2]));
    assert_eq!(r, Ok(()));
    let (name, pattern) = st.finish().unwrap();
    assert_eq!(name, "n");
    assert_eq!(pattern, vec![1, 2]);
    let (st2, r2) = PcreArgParser::resolve_pattern("n".to_string(), ParsedLit::OtherKind);
    assert_eq!(r2, Err(ArgError::ExpectedStringLiteral));
    assert!(st2.finish().is_none());
    let (st3, r3) = PcreArgParser::resolve_pattern("n".to_string(), ParsedLit::Invalid);
    assert_eq!(r3, Err(ArgError::InvalidLiteral));
    assert!(st3.finish().is_none());
}

#[test]
fn unterminated_literal_with_multibyte_tail_is_answered() {
    // an unterminated string literal whose final character is multi-byte
    // UTF-8 and preceded by a backslash; the parser must answer, not die
    let mut p = PcreArgParser::default();
    assert_eq!(p.push(Token::Ident("f".to_string())), Ok(()));
    assert_eq!(p.push(Token::Punct(',')), Ok(()));
    assert_eq!(
        p.push(Token::Literal("\"\\\u{e9}".to_string())),
        Err(ArgError::InvalidLiteral)
    );
    assert!(p.finish().is_none());
}

#[test]
fn non_ascii_string_contents_still_parse() {
    // multi-byte characters in the body are fine: the text ends with the
    // closing quote, so the literal parser is relied upon as usual
    let mut p = PcreArgParser::default();
    assert_eq!(p.push(Token::Ident("f".to_string())), Ok(()));
    assert_eq!(p.push(Token::Punct(',')), Ok(()));
    assert_eq!(p.push(Token::Literal("\"\u{e9}\"".to_string())), Ok(()));
    let (_, pattern) = p.finish().unwrap();
    assert_eq!(pattern, vec![0xC3, 0xA9]);
}

#[test]
fn escaped_string_with_multibyte_tail_is_rejected_not_parsed() {
    // a backslash together with a multi-byte final character is outside
    // what the literal parser is relied upon for, even when some such
    // texts (a raw string with a non-ASCII suffix) would be literals
    let mut p = PcreArgParser::default();
    assert_eq!(p.push(Token::Ident("f".to_string())), Ok(()));
    assert_eq!(p.push(Token::Punct(',')), Ok(()));
    assert_eq!(
        p.push(Token::Literal("r\"a\\d\"\u{e9}".to_string())),
        Err(ArgError::InvalidLiteral)
    );
}

#[test]
fn wraps_code_in_named_module() {
    let s = wrap_code("find_john", "fn fsm_main() {}");
    assert_eq!(
        s,
        "mod find_john_module { fn fsm_main() {} } pub use find_john_module::fsm_main as find_john;"
    );
}
