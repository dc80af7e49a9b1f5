use utility_css::ast::{Util, UtilTree, Value, ValueOrGroup, Expr};
use utility_css::compiler::Compiler;
use utility_css::error::CompileError;
use utility_css::flatten::flatten_expr;
use utility_css::lexer::get_tokens;
use utility_css::token::Token;

#[test]
fn lexer_tokens() {
    let tokens = get_tokens("p-t=4 [x] @_():").unwrap();
    assert_eq!(
        tokens,
        vec![
            Token::Word("p-t".to_string()),
            Token::Eq,
            Token::Word("4".to_string()),
            Token::Whitespace,
            Token::RawValue("x".to_string()),
            Token::Whitespace,
            Token::At,
            Token::Underscore,
            Token::LParen,
            Token::RParen,
            Token::Colon,
        ]
    );
}

#[test]
fn lexer_collapses_whitespace_runs() {
    let tokens = get_tokens("a \t\n b").unwrap();
    assert_eq!(
        tokens,
        vec![
            Token::Word("a".to_string()),
            Token::Whitespace,
            Token::Word("b".to_string()),
        ]
    );
}

#[test]
fn lexer_word_characters() {
    let tokens = get_tokens("-mt1.5/x").unwrap();
    assert_eq!(tokens, vec![Token::Word("-mt1.5/x".to_string())]);
}

#[test]
fn unterminated_raw_value_is_fatal() {
    let mut c = Compiler::new();
    assert_eq!(
        c.generate_classes("[abc"),
        Err(CompileError::UnterminatedRawValue)
    );
}

#[test]
fn unknown_character_is_fatal() {
    let mut c = Compiler::new();
    assert_eq!(
        c.generate_classes("p=4 ~"),
        Err(CompileError::UnknownCharacter)
    );
}

#[test]
fn unclosed_paren_is_fatal() {
    let mut c = Compiler::new();
    assert_eq!(
        c.generate_classes("hover:(block"),
        Err(CompileError::UnexpectedToken)
    );
}

#[test]
fn trailing_tokens_are_fatal() {
    let mut c = Compiler::new();
    assert_eq!(
        c.generate_classes("p=4)"),
        Err(CompileError::UnexpectedToken)
    );
}

#[test]
fn unclosed_variant_group_is_fatal() {
    let mut c = Compiler::new();
    assert_eq!(
        c.generate_classes("(sm (lg):block"),
        Err(CompileError::UnclosedVariantGroup)
    );
}

#[test]
fn second_variant_group_is_fatal() {
    let mut c = Compiler::new();
    assert_eq!(
        c.generate_classes("(sm):(lg):block"),
        Err(CompileError::SecondVariantGroup)
    );
}

#[test]
fn empty_value_group_is_fatal() {
    let mut c = Compiler::new();
    assert_eq!(
        c.generate_classes("p=()"),
        Err(CompileError::EmptyValueGroup)
    );
}

#[test]
fn missing_value_is_fatal() {
    let mut c = Compiler::new();
    assert_eq!(c.generate_classes("p="), Err(CompileError::ExpectedValue));
}

#[test]
fn variant_without_expression_is_fatal() {
    let mut c = Compiler::new();
    assert_eq!(c.generate_classes("hover:"), Err(CompileError::ExpectedExpr));
}

#[test]
fn unclosed_property_list_is_fatal() {
    let mut c = Compiler::new();
    assert_eq!(
        c.generate_classes("(p"),
        Err(CompileError::UnexpectedToken)
    );
}

#[test]
fn media_without_name_is_fatal() {
    let mut c = Compiler::new();
    assert_eq!(
        c.generate_classes("@=block"),
        Err(CompileError::UnexpectedToken)
    );
}

#[test]
fn unknown_names_fail_the_render_call() {
    let mut c = Compiler::new();
    c.generate_classes("bogus").unwrap();
    assert_eq!(c.get_css(), Err(CompileError::UnknownProperty));

    let mut c = Compiler::new();
    c.generate_classes("bogus:block").unwrap();
    assert_eq!(c.get_css(), Err(CompileError::UnknownPseudo));

    let mut c = Compiler::new();
    c.generate_classes("@bogus:block").unwrap();
    assert_eq!(c.get_css(), Err(CompileError::UnknownMediaQuery));

    let mut c = Compiler::new();
    c.generate_classes("overflow=bogus").unwrap();
    assert_eq!(c.get_css(), Err(CompileError::UnknownValue));
}

#[test]
fn error_descriptions_are_stable() {
    assert_eq!(
        CompileError::GroupLengthMismatch.describe(),
        "group length mismatch"
    );
    assert_eq!(
        CompileError::UnterminatedRawValue.describe(),
        "unterminated raw value"
    );
}

#[test]
fn flatten_single_leaf() {
    let expr = Expr::Util(Util {
        properties: vec!["p".to_string()],
        tree: UtilTree::Leaf(Some(ValueOrGroup::Value(Value::Iden("4".to_string())))),
    });
    let flats = flatten_expr(&expr, Vec::new(), Vec::new(), "x-".to_string()).unwrap();
    assert_eq!(flats.len(), 1);
    match &flats[0].css {
        utility_css::ast::FlatUtilOrRaw::FlatUtil(u) => {
            assert_eq!(u.prop, "x-p");
            assert_eq!(u.value, Some(Value::Iden("4".to_string())));
        }
        other => panic!("unexpected body: {:?}", other),
    }
    assert!(flats[0].variants.is_none());
}

#[test]
fn flatten_group_mismatch() {
    let expr = Expr::Util(Util {
        properties: vec!["p".to_string()],
        tree: UtilTree::Leaf(Some(ValueOrGroup::Group(vec![
            Some(Value::Iden("1".to_string())),
            Some(Value::Iden("2".to_string())),
        ]))),
    });
    let r = flatten_expr(&expr, Vec::new(), Vec::new(), String::new());
    assert_eq!(r, Err(CompileError::GroupLengthMismatch));
}

#[test]
fn lexer_handles_unicode_words_and_whitespace() {
    // Unicode letters continue a word; a no-break space is whitespace.
    let tokens = get_tokens("caf\u{e9}\u{a0}th\u{e9}").unwrap();
    assert_eq!(
        tokens,
        vec![
            Token::Word("caf\u{e9}".to_string()),
            Token::Whitespace,
            Token::Word("th\u{e9}".to_string()),
        ]
    );
}

#[test]
fn underscore_is_its_own_token() {
    let tokens = get_tokens("a_b").unwrap();
    assert_eq!(
        tokens,
        vec![
            Token::Word("a".to_string()),
            Token::Underscore,
            Token::Word("b".to_string()),
        ]
    );
}

#[test]
fn raw_value_captures_everything_up_to_bracket() {
    let tokens = get_tokens("[a b:(c)=d]").unwrap();
    assert_eq!(tokens, vec![Token::RawValue("a b:(c)=d".to_string())]);
}
