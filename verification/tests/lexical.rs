use mypl::ast::{BinOp, UnOp};
use mypl::number::parse_integer;
use mypl::parse::TokenKindExtensions;
use mypl::pattern::{anchored_length, match_prefix};
use mypl::scan::{first_char_width, match_exact, take, INTEGER_PATTERN};
use mypl::sign::{sign_rule, SIGN_COUNT};
use mypl::source_peeker::SourcePeeker;
use mypl::text::{byte_len, starts_with};
use mypl::token::{create_all, Keyword, Literal, TokenKind};
use mypl::tokenizer::SourceReader;

#[test]
fn keywords_in_the_order_of_their_rules() {
    let all = create_all();
    assert_eq!(22, all.len());
    assert_eq!(Keyword::Const, all[0]);
    assert_eq!(Keyword::Print, all[21]);
    assert!(!all.contains(&Keyword::Println));
    let codes: Vec<&str> = all.iter().map(|k| k.to_code()).collect();
    assert_eq!(
        vec![
            "const", "var", "record", "union", "impl", "trait", "mod", "if", "else", "for", "in",
            "match", "return", "u32", "u16", "u8", "i32", "i16", "i8", "f32", "f16", "print"
        ],
        codes
    );
    assert_eq!("println", Keyword::Println.to_code());
}

#[test]
fn operators_spell_themselves() {
    assert_eq!("+", BinOp::Add.as_code());
    assert_eq!("-", BinOp::Sub.as_code());
    assert_eq!("*", BinOp::Mul.as_code());
    assert_eq!("/", BinOp::Div.as_code());
    assert_eq!("%", BinOp::Rem.as_code());
    assert_eq!("&&", BinOp::And.as_code());
    assert_eq!("||", BinOp::Or.as_code());
    assert_eq!("==", BinOp::Eq.as_code());
    assert_eq!("<", BinOp::Lt.as_code());
    assert_eq!("<=", BinOp::Le.as_code());
    assert_eq!("!=", BinOp::Ne.as_code());
    assert_eq!(">=", BinOp::Ge.as_code());
    assert_eq!(">", BinOp::Gt.as_code());
    assert_eq!("!", UnOp::Not.as_code());
    assert_eq!("-", UnOp::Neg.as_code());
}

#[test]
fn sign_table_has_long_signs_first() {
    assert_eq!(39, SIGN_COUNT);
    assert_eq!(("==", TokenKind::EqEq), sign_rule(0));
    assert_eq!(("|=", TokenKind::OrEq), sign_rule(16));
    assert_eq!(("=", TokenKind::Eq), sign_rule(17));
    for row in 0..SIGN_COUNT {
        let (code, _) = sign_rule(row);
        assert_eq!(if row < 17 { 2 } else { 1 }, code.len());
    }
}

#[test]
fn tokens_as_operators() {
    assert_eq!(Some(BinOp::Sub), TokenKind::Minus.to_binary_op());
    assert_eq!(Some(UnOp::Neg), TokenKind::Minus.to_unary_op());
    assert_eq!(Some(UnOp::Not), TokenKind::Not.to_unary_op());
    assert_eq!(None, TokenKind::Not.to_binary_op());
    assert_eq!(Some(BinOp::Rem), TokenKind::Percent.to_binary_op());
    assert_eq!(Some(BinOp::And), TokenKind::AndAnd.to_binary_op());
    assert_eq!(Some(BinOp::Or), TokenKind::OrOr.to_binary_op());
    assert_eq!(None, TokenKind::Eq.to_binary_op());
    assert_eq!(None, TokenKind::Plus.to_unary_op());
    assert!(TokenKind::Eof.is_eof());
    assert!(!TokenKind::SemiColon.is_eof());
}

#[test]
fn variants_are_compared_without_their_payload() {
    let a = TokenKind::Identifier("a".to_string());
    let b = TokenKind::Identifier("b".to_string());
    assert!(a.same_variant(&b));
    assert!(!a.same_variant(&TokenKind::Unknown("a".to_string())));
    assert!(TokenKind::Eq.same_variant(&TokenKind::Eq));
    assert!(!TokenKind::Eq.same_variant(&TokenKind::EqEq));
    assert_eq!("a", a.unwrap_identifier());
    assert_eq!(
        &Literal::Integer(1),
        TokenKind::Literal(Literal::Integer(1)).unwrap_literal()
    );
}

#[test]
fn integers_are_read_digit_by_digit() {
    assert_eq!(Some(0), parse_integer("0"));
    assert_eq!(Some(7), parse_integer("007"));
    assert_eq!(Some(1234567890), parse_integer("1234567890"));
    assert_eq!(Some(i128::MAX), parse_integer("170141183460469231731687303715884105727"));
    assert_eq!(None, parse_integer("170141183460469231731687303715884105728"));
    assert_eq!(None, parse_integer("1701411834604692317316873037158841057270"));
    assert_eq!(None, parse_integer(""));
    assert_eq!(None, parse_integer("12a"));
    assert_eq!(None, parse_integer("-1"));
    assert_eq!(None, parse_integer("٣"));
}

#[test]
fn a_pattern_counts_only_at_the_start() {
    assert_eq!(Some(3), match_prefix(INTEGER_PATTERN, "123abc"));
    assert_eq!(None, match_prefix(INTEGER_PATTERN, "abc123"));
    // Without an anchor the match is found further on, and is not counted.
    assert_eq!(None, match_prefix("\\d+", "abc123"));
    assert_eq!(Some(2), match_prefix("\\d+", "12 34"));
    // An empty match is no match, and a broken pattern matches nothing.
    assert_eq!(None, match_prefix("^\\d*", "abc"));
    assert_eq!(None, match_prefix("^(", "("));
    // Lengths are counted in bytes.
    assert_eq!(Some(4), match_prefix("^é+", "ééa"));
}

#[test]
fn a_match_is_kept_only_at_offset_zero() {
    assert_eq!(Some(4), anchored_length(Some((0, 4))));
    assert_eq!(None, anchored_length(Some((1, 4))));
    assert_eq!(None, anchored_length(Some((0, 0))));
    assert_eq!(None, anchored_length(None));
}

#[test]
fn exact_spellings_and_pieces() {
    assert_eq!(Some(5), match_exact("const x", "const"));
    assert_eq!(None, match_exact("cons", "const"));
    assert_eq!(None, match_exact("x", ""));
    assert_eq!("co", take("const", 2));
    assert_eq!("é", take("éa", 2));
    assert_eq!(1, first_char_width("a"));
    assert_eq!(2, first_char_width("éa"));
    assert_eq!(3, first_char_width("€"));
    assert_eq!(4, first_char_width("𝄞"));
    assert!(starts_with("abc", "ab"));
    assert!(starts_with("abc", ""));
    assert!(!starts_with("ab", "abc"));
    assert!(!starts_with("abc", "bc"));
    assert_eq!(3, byte_len("€"));
}

#[test]
fn source_reader_moves_by_bytes() {
    let mut reader = SourceReader::new("ab");
    assert!(!reader.is_eof());
    assert_eq!(0, reader.get_position());
    assert_eq!("ab", reader.remaining());
    let span = reader.make_span(2);
    assert_eq!((0, 2), (span.start, span.end));
    reader.advance(2);
    assert!(reader.is_eof());
    assert!(!reader.did_pass_eof());
    assert_eq!("", reader.remaining());
    assert_eq!(2, reader.get_position());
    reader.advance(1);
    assert!(reader.did_pass_eof());
    assert!(!reader.is_eof());
}

#[test]
fn peeker_looks_ahead() {
    let peeker = SourcePeeker::new("one\ntwo");
    assert_eq!(Some("one\n"), peeker.until(0, '\n'));
    assert_eq!(Some("e\n"), peeker.until(2, '\n'));
    assert_eq!(Some("\n"), peeker.until(3, '\n'));
    assert_eq!(Some("two"), peeker.until(4, '\n'));
    assert_eq!(None, peeker.until(7, '\n'));
    assert_eq!(None, peeker.until(70, '\n'));
    assert!(peeker.starts_with(0, "one"));
    assert!(peeker.starts_with(4, "two"));
    assert!(!peeker.starts_with(4, "one"));
    assert!(!peeker.starts_with(7, ""));
    assert!(!peeker.starts_with(6, "oo"));
}
