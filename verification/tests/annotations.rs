use struct_morph::parse::{
    field_override_from_tokens, parse_field_override, parse_source_reference,
    source_reference_from_tokens, FieldStrategy, MorphError,
};
use struct_morph::token::{
    classified, classify, classify_all, shallow, tokenize, Answers, RawKind, RawToken, Token,
    MAX_NESTING,
};
use struct_morph::{morph_field, morph_field_text};

fn ident(s: &str) -> Token {
    Token::Ident(s.to_string())
}

fn punct(s: &str) -> Token {
    Token::Punct(s.to_string())
}

#[test]
fn tokenize_classifies_each_token() {
    assert_eq!(
        tokenize("select = d0"),
        Some(vec![ident("select"), punct("="), ident("d0")])
    );
    assert_eq!(
        tokenize("transform=\"g\" \"a b\" \"fn\" 12 (a b) type _ r#type"),
        Some(vec![
            ident("transform"),
            punct("="),
            Token::Name("g".to_string()),
            Token::Str("a b".to_string()),
            Token::Str("fn".to_string()),
            Token::Literal("12".to_string()),
            Token::Group("(a b)".to_string()),
            Token::Reserved("type".to_string()),
            Token::Reserved("_".to_string()),
            ident("r#type"),
        ])
    );
    assert_eq!(tokenize(""), Some(vec![]));
    assert_eq!(tokenize("(unbalanced"), None);
    assert_eq!(tokenize("\"open"), None);
}

#[test]
fn text_with_too_many_brackets_is_not_lexed() {
    let long = "a".repeat(100_000);
    assert_eq!(tokenize(&long), Some(vec![ident(&long)]));
    assert_eq!(parse_source_reference(&long), Ok(long.clone()));
    let most = "(".repeat(MAX_NESTING) + &")".repeat(MAX_NESTING);
    assert!(shallow(&most));
    assert_eq!(tokenize(&most), Some(vec![Token::Group(most.clone())]));
    let mixed = "[{(".repeat(MAX_NESTING / 3) + "é(" + &")}]".repeat(MAX_NESTING / 3) + ")";
    assert!(shallow(&mixed));
    let over = "(".repeat(MAX_NESTING + 1) + &")".repeat(MAX_NESTING + 1);
    assert!(!shallow(&over));
    assert_eq!(tokenize(&over), None);
    assert!(!shallow(&"[".repeat(MAX_NESTING + 1)));
    assert!(!shallow(&"{".repeat(MAX_NESTING + 1)));
    let deep = "(".repeat(300_000) + &")".repeat(300_000);
    assert_eq!(tokenize(&deep), None);
    assert_eq!(parse_source_reference(&deep), Err(MorphError::MalformedSourceReference));
    assert_eq!(
        parse_field_override(&format!("foo = {}", deep)),
        Err(MorphError::MalformedOverrideSyntax)
    );
    assert_eq!(
        classify(&RawToken { kind: RawKind::Ident, text: deep.clone() }),
        Token::Reserved(deep.clone())
    );
    assert_eq!(
        classify(&RawToken { kind: RawKind::Literal, text: format!("\"{}\"", deep) }),
        Token::Literal(format!("\"{}\"", deep))
    );
    assert_eq!(
        classify(&RawToken { kind: RawKind::Group, text: deep.clone() }),
        Token::Group(deep)
    );
}

fn answers(ident: Option<&str>, contents: Option<&str>, name: Option<&str>) -> Answers {
    Answers {
        ident: ident.map(|s| s.to_string()),
        contents: contents.map(|s| s.to_string()),
        name: name.map(|s| s.to_string()),
    }
}

#[test]
fn classification_table() {
    let word = RawToken { kind: RawKind::Ident, text: "g".to_string() };
    assert_eq!(classified(&word, answers(Some("g"), None, None)), ident("g"));
    assert_eq!(classified(&word, answers(Some("h"), None, None)), Token::Reserved("g".to_string()));
    assert_eq!(classified(&word, answers(None, Some("g"), Some("g"))), Token::Reserved("g".to_string()));
    let literal = RawToken { kind: RawKind::Literal, text: "\"g\"".to_string() };
    assert_eq!(classified(&literal, answers(None, Some("g"), Some("g"))), Token::Name("g".to_string()));
    assert_eq!(classified(&literal, answers(None, Some(" g"), Some("g"))), Token::Str(" g".to_string()));
    assert_eq!(classified(&literal, answers(None, Some("g h"), None)), Token::Str("g h".to_string()));
    assert_eq!(
        classified(&literal, answers(Some("g"), None, Some("g"))),
        Token::Literal("\"g\"".to_string())
    );
    let sign = RawToken { kind: RawKind::Punct, text: "=".to_string() };
    assert_eq!(classified(&sign, answers(Some("="), Some("="), Some("="))), punct("="));
    let group = RawToken { kind: RawKind::Group, text: "(a)".to_string() };
    assert_eq!(classified(&group, answers(None, None, None)), Token::Group("(a)".to_string()));
    assert_eq!(
        classify_all(&vec![word, sign, literal, group]),
        vec![ident("g"), punct("="), Token::Name("g".to_string()), Token::Group("(a)".to_string())]
    );
    assert_eq!(classify_all(&vec![]), vec![]);
}

#[test]
fn string_literal_holds_its_contents() {
    assert_eq!(
        classify(&RawToken { kind: RawKind::Literal, text: "\"a\\u{62}\"".to_string() }),
        Token::Name("ab".to_string())
    );
    assert_eq!(
        classify(&RawToken { kind: RawKind::Literal, text: "\" a\\u{62} // c\\n\"".to_string() }),
        Token::Str(" ab // c\n".to_string())
    );
    assert_eq!(
        classify(&RawToken { kind: RawKind::Literal, text: "\"a\\u{62} \\n c\"".to_string() }),
        Token::Str("ab \n c".to_string())
    );
    assert_eq!(
        classify(&RawToken { kind: RawKind::Literal, text: "r#\"a\"b\"#".to_string() }),
        Token::Str("a\"b".to_string())
    );
    assert_eq!(
        classify(&RawToken { kind: RawKind::Literal, text: "b\"ab\"".to_string() }),
        Token::Literal("b\"ab\"".to_string())
    );
    assert_eq!(
        classify(&RawToken { kind: RawKind::Literal, text: "'a'".to_string() }),
        Token::Literal("'a'".to_string())
    );
}

#[test]
fn reserved_words_are_no_identifiers() {
    assert_eq!(
        classify(&RawToken { kind: RawKind::Ident, text: "fn".to_string() }),
        Token::Reserved("fn".to_string())
    );
    assert_eq!(
        classify(&RawToken { kind: RawKind::Ident, text: "Foo".to_string() }),
        ident("Foo")
    );
    assert_eq!(
        classify(&RawToken { kind: RawKind::Punct, text: "=".to_string() }),
        punct("=")
    );
    assert_eq!(
        classify(&RawToken { kind: RawKind::Group, text: "(a)".to_string() }),
        Token::Group("(a)".to_string())
    );
}

#[test]
fn source_reference_is_one_identifier() {
    assert_eq!(parse_source_reference("Foo"), Ok("Foo".to_string()));
    assert_eq!(parse_source_reference("  ProductRow "), Ok("ProductRow".to_string()));
    assert_eq!(source_reference_from_tokens(&vec![ident("Foo")]), Ok("Foo".to_string()));
}

#[test]
fn source_reference_with_wrong_argument_count() {
    assert_eq!(parse_source_reference(""), Err(MorphError::MalformedSourceReference));
    assert_eq!(parse_source_reference("Foo Bar"), Err(MorphError::MalformedSourceReference));
    assert_eq!(parse_source_reference("Foo, Bar"), Err(MorphError::MalformedSourceReference));
    assert_eq!(source_reference_from_tokens(&vec![]), Err(MorphError::MalformedSourceReference));
    assert_eq!(
        source_reference_from_tokens(&vec![ident("Foo"), ident("Bar")]),
        Err(MorphError::MalformedSourceReference)
    );
}

#[test]
fn source_reference_that_is_no_identifier() {
    assert_eq!(parse_source_reference("\"Foo\""), Err(MorphError::MalformedSourceReference));
    assert_eq!(parse_source_reference("42"), Err(MorphError::MalformedSourceReference));
    assert_eq!(parse_source_reference("crate::Foo"), Err(MorphError::MalformedSourceReference));
    assert_eq!(parse_source_reference("struct"), Err(MorphError::MalformedSourceReference));
    assert_eq!(parse_source_reference("(Foo)"), Err(MorphError::MalformedSourceReference));
    assert_eq!(parse_source_reference(")"), Err(MorphError::MalformedSourceReference));
    assert_eq!(
        source_reference_from_tokens(&vec![Token::Str("Foo".to_string())]),
        Err(MorphError::MalformedSourceReference)
    );
}

#[test]
fn select_takes_an_identifier() {
    assert_eq!(parse_field_override("select = d0"), Ok(FieldStrategy::Select("d0".to_string())));
    assert_eq!(parse_field_override("select=name"), Ok(FieldStrategy::Select("name".to_string())));
    assert_eq!(
        field_override_from_tokens(&vec![ident("select"), punct("="), ident("d0")]),
        Ok(FieldStrategy::Select("d0".to_string()))
    );
}

#[test]
fn transform_takes_a_string_literal() {
    assert_eq!(
        parse_field_override("transform = \"net_price\""),
        Ok(FieldStrategy::Transform("net_price".to_string()))
    );
    assert_eq!(
        parse_field_override("transform = r\"is_available\""),
        Ok(FieldStrategy::Transform("is_available".to_string()))
    );
    assert_eq!(
        parse_field_override("transform = \"\\u{67}\""),
        Ok(FieldStrategy::Transform("g".to_string()))
    );
    assert_eq!(
        field_override_from_tokens(&vec![ident("transform"), punct("="), Token::Name("g".to_string())]),
        Ok(FieldStrategy::Transform("g".to_string()))
    );
}

#[test]
fn transform_takes_every_string_literal() {
    for contents in ["not a name", "a::b", "1abc", "self", "", " g // h"] {
        assert_eq!(
            parse_field_override(&format!("transform = {:?}", contents)),
            Ok(FieldStrategy::Transform(contents.to_string()))
        );
        assert_eq!(
            field_override_from_tokens(&vec![
                ident("transform"),
                punct("="),
                Token::Str(contents.to_string())
            ]),
            Ok(FieldStrategy::Transform(contents.to_string()))
        );
        let item = "pub e: String".to_string();
        assert_eq!(
            morph_field_text(&format!("transform = {:?}", contents), item.clone()),
            Ok(item)
        );
    }
}

#[test]
fn unknown_keyword_is_named() {
    assert_eq!(
        parse_field_override("foo = \"x\""),
        Err(MorphError::UnrecognizedOverrideKeyword("foo".to_string()))
    );
    assert_eq!(
        parse_field_override("rename ="),
        Err(MorphError::UnrecognizedOverrideKeyword("rename".to_string()))
    );
    assert_eq!(
        parse_field_override("Select = a"),
        Err(MorphError::UnrecognizedOverrideKeyword("Select".to_string()))
    );
    assert_eq!(
        parse_field_override("foo == a b"),
        Err(MorphError::UnrecognizedOverrideKeyword("foo".to_string()))
    );
    assert_eq!(
        field_override_from_tokens(&vec![ident("foo"), punct("=")]),
        Err(MorphError::UnrecognizedOverrideKeyword("foo".to_string()))
    );
}

#[test]
fn malformed_overrides() {
    for args in [
        "",
        "select",
        "select d0",
        "select =",
        "select = \"text\"",
        "select = 0",
        "select = type",
        "select = a.b",
        "select = a, transform = \"g\"",
        "select = a transform",
        "transform",
        "transform =",
        "transform = g",
        "transform = 7",
        "transform = b\"g\"",
        "transform = \"g\" \"h\"",
        "transform: \"g\"",
        "\"transform\" = \"g\"",
        "= a",
        "type = \"x\"",
        "foo",
        "foo(a)",
        "select = (",
    ] {
        assert_eq!(parse_field_override(args), Err(MorphError::MalformedOverrideSyntax), "{}", args);
    }
    assert_eq!(field_override_from_tokens(&vec![]), Err(MorphError::MalformedOverrideSyntax));
    assert_eq!(
        field_override_from_tokens(&vec![ident("transform"), punct("="), Token::Literal("7".to_string())]),
        Err(MorphError::MalformedOverrideSyntax)
    );
    assert_eq!(
        field_override_from_tokens(&vec![ident("select"), punct("="), Token::Reserved("fn".to_string())]),
        Err(MorphError::MalformedOverrideSyntax)
    );
    assert_eq!(
        field_override_from_tokens(&vec![ident("select"), punct("+"), ident("a")]),
        Err(MorphError::MalformedOverrideSyntax)
    );
}

#[test]
fn morph_field_hands_the_item_back() {
    let item = "pub e: String".to_string();
    assert_eq!(morph_field_text("select = b", item.clone()), Ok(item.clone()));
    assert_eq!(morph_field_text("transform = \"g\"", item.clone()), Ok(item.clone()));
    assert_eq!(
        morph_field(&vec![ident("select"), punct("="), ident("b")], item.clone()),
        Ok(item.clone())
    );
    assert_eq!(
        morph_field_text("foo = \"x\"", item.clone()),
        Err(MorphError::UnrecognizedOverrideKeyword("foo".to_string()))
    );
    assert_eq!(
        morph_field(&vec![ident("foo"), punct("=")], item.clone()),
        Err(MorphError::UnrecognizedOverrideKeyword("foo".to_string()))
    );
    assert_eq!(morph_field_text("select", item.clone()), Err(MorphError::MalformedOverrideSyntax));
    assert_eq!(morph_field_text("select = (", item.clone()), Err(MorphError::MalformedOverrideSyntax));
    assert_eq!(morph_field(&vec![], item), Err(MorphError::MalformedOverrideSyntax));
}

#[test]
fn messages() {
    assert_eq!(
        MorphError::MalformedSourceReference.message(),
        "expected a single identifier as argument"
    );
    assert_eq!(
        MorphError::UnrecognizedOverrideKeyword("foo".to_string()).message(),
        "expected either 'transform' or 'select'"
    );
    assert_eq!(
        MorphError::MalformedOverrideSyntax.message(),
        "expected `select = field` or `transform = \"function\"`"
    );
}
