use mypl::span::Span;
use mypl::token::{DelimDir, DelimType, Keyword, Literal, Token, TokenKind};
use mypl::tokenizer::{tokenize, Tokenizer};

fn kinds(source: &str) -> Vec<TokenKind> {
    tokenize(source).into_iter().map(|t| t.kind).collect()
}

fn integer(value: i128) -> TokenKind {
    TokenKind::Literal(Literal::Integer(value))
}

fn ident(text: &str) -> TokenKind {
    TokenKind::Identifier(text.to_string())
}

#[test]
fn arithmetic_yields_the_expected_tokens() {
    assert_eq!(
        vec![integer(1), TokenKind::Plus, integer(2), TokenKind::Star, integer(3), TokenKind::Eof],
        kinds("1 + 2 * 3")
    );
}

#[test]
fn spans_are_byte_ranges_behind_the_white_space() {
    let tokens = tokenize("  12 +\tx");
    assert_eq!(
        vec![
            Token { kind: integer(12), span: Span { start: 2, end: 4 } },
            Token { kind: TokenKind::Plus, span: Span { start: 5, end: 6 } },
            Token { kind: ident("x"), span: Span { start: 7, end: 8 } },
            Token { kind: TokenKind::Eof, span: Span { start: 8, end: 9 } },
        ],
        tokens
    );
}

#[test]
fn next_token_ends_after_the_end_of_input() {
    let mut tokenizer = Tokenizer::new("x");
    assert_eq!(Some(ident("x")), tokenizer.next_token().map(|t| t.kind));
    assert_eq!(Some(TokenKind::Eof), tokenizer.next_token().map(|t| t.kind));
    assert_eq!(None, tokenizer.next_token());
    assert_eq!(None, tokenizer.next_token());
}

#[test]
fn empty_source_is_just_the_end_of_input() {
    assert_eq!(
        vec![Token { kind: TokenKind::Eof, span: Span { start: 0, end: 1 } }],
        tokenize("")
    );
    assert_eq!(vec![TokenKind::Eof], kinds(" \t\r\n"));
}

#[test]
fn comment_runs_to_the_end_of_the_line() {
    assert_eq!(
        vec![TokenKind::Comment("// a / b".to_string()), integer(1), TokenKind::Eof],
        kinds("// a / b\n1")
    );
}

#[test]
fn keywords_are_matched_as_prefixes() {
    assert_eq!(
        vec![TokenKind::Keyword(Keyword::Var), ident("iable"), TokenKind::Eof],
        kinds("variable")
    );
    assert_eq!(
        vec![TokenKind::Keyword(Keyword::Print), ident("ln"), TokenKind::Eof],
        kinds("println")
    );
    assert_eq!(
        vec![TokenKind::Keyword(Keyword::Const), ident("x"), TokenKind::Eq, integer(1), TokenKind::SemiColon, TokenKind::Eof],
        kinds("const x = 1;")
    );
}

#[test]
fn two_character_operators_win_over_one_character_operators() {
    assert_eq!(
        vec![
            TokenKind::EqEq, TokenKind::Eq, TokenKind::Le, TokenKind::Lt, TokenKind::Ne,
            TokenKind::Not, TokenKind::AndAnd, TokenKind::And, TokenKind::OrOr, TokenKind::PercentEq,
            TokenKind::CaretEq, TokenKind::DotDot, TokenKind::Dot, TokenKind::Eof,
        ],
        kinds("== = <= < != ! && & || %= ^= .. .")
    );
}

#[test]
fn delimiters_carry_direction_and_type() {
    assert_eq!(
        vec![
            TokenKind::Delim(DelimDir::Open, DelimType::Paren),
            TokenKind::Delim(DelimDir::Close, DelimType::Paren),
            TokenKind::Delim(DelimDir::Open, DelimType::Brace),
            TokenKind::Delim(DelimDir::Close, DelimType::Brace),
            TokenKind::Delim(DelimDir::Open, DelimType::Brack),
            TokenKind::Delim(DelimDir::Close, DelimType::Brack),
            TokenKind::Eof,
        ],
        kinds("(){}[]")
    );
}

#[test]
fn literals_of_every_kind() {
    assert_eq!(
        vec![
            TokenKind::Literal(Literal::String("\"hi there\"".to_string())),
            TokenKind::Literal(Literal::Float("3.14".to_string())),
            TokenKind::Literal(Literal::Float("2.".to_string())),
            integer(42),
            TokenKind::Literal(Literal::Bool(true)),
            TokenKind::Literal(Literal::Bool(false)),
            TokenKind::Eof,
        ],
        kinds("\"hi there\" 3.14 2. 42 true false")
    );
}

#[test]
fn a_float_is_only_read_where_the_cursor_stands() {
    // The dot of ".5" is a sign of its own: signs are tried before numbers.
    assert_eq!(
        vec![ident("abc"), TokenKind::Dot, integer(5), TokenKind::Eof],
        kinds("abc .5")
    );
}

#[test]
fn largest_integer_fits_and_the_next_does_not() {
    assert_eq!(
        vec![integer(i128::MAX), TokenKind::Eof],
        kinds("170141183460469231731687303715884105727")
    );
    assert_eq!(
        vec![
            TokenKind::Unknown("170141183460469231731687303715884105728".to_string()),
            TokenKind::Eof
        ],
        kinds("170141183460469231731687303715884105728")
    );
}

#[test]
fn unknown_text_is_set_aside_one_character_at_a_time() {
    let tokens = tokenize("#é1");
    assert_eq!(
        vec![
            Token { kind: TokenKind::Unknown("#".to_string()), span: Span { start: 0, end: 1 } },
            Token { kind: TokenKind::Unknown("é".to_string()), span: Span { start: 1, end: 3 } },
            Token { kind: integer(1), span: Span { start: 3, end: 4 } },
            Token { kind: TokenKind::Eof, span: Span { start: 4, end: 5 } },
        ],
        tokens
    );
}

#[test]
fn spans_and_gaps_rebuild_the_source() {
    let source = " var x = 12 ;\n// done\n\tprint x; ";
    let tokens = tokenize(source);
    let mut rebuilt = String::new();
    let mut cursor = 0;
    for token in &tokens[..tokens.len() - 1] {
        rebuilt.push_str(&source[cursor..token.span.start]);
        rebuilt.push_str(token.span.slice_string(source).unwrap());
        cursor = token.span.end;
    }
    rebuilt.push_str(&source[cursor..]);
    assert_eq!(source, rebuilt);
    assert_eq!(source.len(), tokens[tokens.len() - 1].span.start);
}

#[test]
fn a_string_runs_to_the_last_quote_of_its_line() {
    assert_eq!(
        vec![
            TokenKind::Literal(Literal::String("\"a\" + \"b\"".to_string())),
            TokenKind::SemiColon,
            TokenKind::Literal(Literal::String("\"c\"".to_string())),
            TokenKind::Eof,
        ],
        kinds("\"a\" + \"b\";\n\"c\"")
    );
    // A quote without its partner is no string.
    assert_eq!(
        vec![TokenKind::Unknown("\"".to_string()), ident("a"), TokenKind::Eof],
        kinds("\"a")
    );
}

#[test]
fn white_space_is_tabs_line_ends_and_spaces() {
    for source in ["\t", "\r", "\n", " ", "\t\t\t", "\r\r\r", "\n\n\n", "\t\r\n", "\r\n", " \t \r"] {
        assert_eq!(
            vec![Token { kind: TokenKind::Eof, span: Span { start: source.len(), end: source.len() + 1 } }],
            tokenize(source)
        );
    }
    // A form feed is no white space.
    assert_eq!(vec![TokenKind::Unknown("\u{c}".to_string()), TokenKind::Eof], kinds("\u{c}"));
    let tokens = tokenize("\t\r\nabc\n\r\tabc\t\n\r");
    assert_eq!(
        vec![
            Token { kind: ident("abc"), span: Span { start: 3, end: 6 } },
            Token { kind: ident("abc"), span: Span { start: 9, end: 12 } },
            Token { kind: TokenKind::Eof, span: Span { start: 15, end: 16 } },
        ],
        tokens
    );
}

#[test]
fn a_comment_ends_before_the_line_feed() {
    assert_eq!(
        vec![TokenKind::Comment("// some comment\r".to_string()), TokenKind::Eof],
        kinds("// some comment\r\n")
    );
    assert_eq!(
        vec![TokenKind::Comment("// this is some comment".to_string()), TokenKind::Eof],
        kinds("// this is some comment")
    );
    assert_eq!(
        vec![
            TokenKind::Comment("// this\r".to_string()),
            TokenKind::Comment("// is \r".to_string()),
            TokenKind::Comment("// mutliline".to_string()),
            TokenKind::Eof,
        ],
        kinds("// this\r\n// is \r\n// mutliline")
    );
    assert_eq!(
        vec![ident("some"), TokenKind::Comment("// other".to_string()), TokenKind::Eof],
        kinds("some\n// other")
    );
    // One slash is the operator.
    assert_eq!(vec![integer(1), TokenKind::Slash, integer(2), TokenKind::Eof], kinds("1 / 2"));
}
