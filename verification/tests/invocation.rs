use hey_chat_gpt::error::{Failure, OptionKey};
use hey_chat_gpt::invocation::{
    option_key, parse_decimal, parse_invocation, parse_tokens, Invocation, OptionSet,
};
use hey_chat_gpt::token::Token;

fn unset() -> OptionSet {
    OptionSet { model: None, seed: None, max_completion_tokens: None }
}

fn ident(name: &str) -> Token {
    Token::Ident(name.to_string())
}

fn number(digits: &str) -> Token {
    Token::Number(digits.to_string())
}

fn text(value: &str) -> Token {
    Token::Text(value.to_string())
}

#[test]
fn empty_arguments_set_nothing() {
    let invocation = parse_invocation("").unwrap();
    assert_eq!(invocation, Invocation { options: unset(), prompt: None });
}

#[test]
fn unknown_key_is_rejected() {
    assert_eq!(parse_invocation("foo = 1"), Err(Failure::UnknownOption("foo".to_string())));
}

#[test]
fn repeated_key_is_rejected() {
    assert_eq!(
        parse_invocation("seed = 1; seed = 2"),
        Err(Failure::DuplicateOption(OptionKey::Seed))
    );
}

#[test]
fn string_for_seed_is_rejected() {
    assert_eq!(
        parse_invocation("seed = \"x\""),
        Err(Failure::InvalidOptionType(OptionKey::Seed))
    );
}

#[test]
fn all_options_and_prompt() {
    let text = "model = \"o1-preview\";\n seed = 20;\n max_completion_tokens = 4096;\n \"Say \\\"hi\\\".\"";
    let invocation = parse_invocation(text).unwrap();
    assert_eq!(
        invocation,
        Invocation {
            options: OptionSet {
                model: Some("o1-preview".to_string()),
                seed: Some(20),
                max_completion_tokens: Some(4096),
            },
            prompt: Some("Say \"hi\".".to_string()),
        }
    );
}

#[test]
fn options_in_any_order() {
    let invocation = parse_invocation("max_completion_tokens = 1; model = \"m\"").unwrap();
    assert_eq!(invocation.options.max_completion_tokens, Some(1));
    assert_eq!(invocation.options.model, Some("m".to_string()));
    assert_eq!(invocation.options.seed, None);
    assert_eq!(invocation.prompt, None);
}

#[test]
fn prompt_alone() {
    let invocation = parse_invocation("\"Write fib.\"").unwrap();
    assert_eq!(invocation, Invocation { options: unset(), prompt: Some("Write fib.".to_string()) });
}

#[test]
fn raw_string_prompt_is_read_as_its_text() {
    let invocation = parse_invocation("r#\"a \"quoted\" word\"#").unwrap();
    assert_eq!(invocation.prompt, Some("a \"quoted\" word".to_string()));
}

#[test]
fn escapes_in_a_prompt_are_resolved() {
    let invocation = parse_invocation("\"line\\nbreak \\u{3042}\"").unwrap();
    assert_eq!(invocation.prompt, Some("line\nbreak あ".to_string()));
}

#[test]
fn semicolon_may_close_the_last_assignment() {
    let invocation = parse_invocation("seed = 5;").unwrap();
    assert_eq!(invocation.options.seed, Some(5));
}

#[test]
fn prompt_must_come_last() {
    assert_eq!(parse_invocation("\"prompt\"; seed = 1"), Err(Failure::MalformedInvocation));
    assert_eq!(parse_invocation("\"prompt\";"), Err(Failure::MalformedInvocation));
    assert_eq!(parse_invocation("\"one\" \"two\""), Err(Failure::MalformedInvocation));
}

#[test]
fn assignments_need_a_separator() {
    assert_eq!(parse_invocation("seed = 1 model = \"m\""), Err(Failure::MalformedInvocation));
    assert_eq!(parse_invocation("seed = 1 \"prompt\""), Err(Failure::MalformedInvocation));
    assert_eq!(parse_invocation("seed = 1, model = \"m\""), Err(Failure::MalformedInvocation));
}

#[test]
fn assignment_needs_equals_sign_and_value() {
    assert_eq!(parse_invocation("seed"), Err(Failure::MalformedInvocation));
    assert_eq!(parse_invocation("seed 1"), Err(Failure::MalformedInvocation));
    assert_eq!(parse_invocation("seed ="), Err(Failure::MalformedInvocation));
    assert_eq!(parse_invocation("= 1"), Err(Failure::MalformedInvocation));
    assert_eq!(parse_invocation("1"), Err(Failure::MalformedInvocation));
    assert_eq!(parse_invocation(";"), Err(Failure::MalformedInvocation));
}

#[test]
fn text_that_is_no_tokens_is_malformed() {
    assert_eq!(parse_invocation("seed = (1"), Err(Failure::MalformedInvocation));
    assert_eq!(parse_invocation("\"open"), Err(Failure::MalformedInvocation));
}

#[test]
fn name_is_looked_up_before_anything_else() {
    assert_eq!(parse_invocation("foo ="), Err(Failure::UnknownOption("foo".to_string())));
    assert_eq!(
        parse_invocation("seed = 1; Seed = 2"),
        Err(Failure::UnknownOption("Seed".to_string()))
    );
}

#[test]
fn repetition_is_found_before_the_value_is_read() {
    assert_eq!(
        parse_invocation("seed = 1; seed = \"x\""),
        Err(Failure::DuplicateOption(OptionKey::Seed))
    );
    assert_eq!(
        parse_invocation("model = \"a\"; model = \"a\""),
        Err(Failure::DuplicateOption(OptionKey::Model))
    );
    assert_eq!(
        parse_invocation("max_completion_tokens = 1; seed = 1; max_completion_tokens ="),
        Err(Failure::DuplicateOption(OptionKey::MaxCompletionTokens))
    );
}

#[test]
fn first_failure_wins() {
    assert_eq!(
        parse_invocation("seed = \"x\"; foo = 1"),
        Err(Failure::InvalidOptionType(OptionKey::Seed))
    );
    assert_eq!(
        parse_invocation("foo = 1; seed = \"x\""),
        Err(Failure::UnknownOption("foo".to_string()))
    );
}

#[test]
fn model_takes_only_a_string() {
    assert_eq!(parse_invocation("model = 4"), Err(Failure::InvalidOptionType(OptionKey::Model)));
    assert_eq!(
        parse_invocation("model = gpt"),
        Err(Failure::InvalidOptionType(OptionKey::Model))
    );
    assert_eq!(
        parse_invocation("model = b\"gpt\""),
        Err(Failure::InvalidOptionType(OptionKey::Model))
    );
}

#[test]
fn seed_takes_integers_up_to_the_limit() {
    let invocation = parse_invocation("seed = 9223372036854775807").unwrap();
    assert_eq!(invocation.options.seed, Some(9_223_372_036_854_775_807));
    assert_eq!(parse_invocation("seed = 0").unwrap().options.seed, Some(0));
    assert_eq!(
        parse_invocation("seed = 9223372036854775808"),
        Err(Failure::InvalidOptionType(OptionKey::Seed))
    );
    assert_eq!(
        parse_invocation("seed = 340282366920938463463374607431768211456"),
        Err(Failure::InvalidOptionType(OptionKey::Seed))
    );
}

#[test]
fn seed_takes_no_other_literal() {
    assert_eq!(parse_invocation("seed = 1.5"), Err(Failure::InvalidOptionType(OptionKey::Seed)));
    assert_eq!(parse_invocation("seed = -1"), Err(Failure::InvalidOptionType(OptionKey::Seed)));
    assert_eq!(parse_invocation("seed = true"), Err(Failure::InvalidOptionType(OptionKey::Seed)));
    assert_eq!(parse_invocation("seed = (1)"), Err(Failure::InvalidOptionType(OptionKey::Seed)));
    assert_eq!(parse_invocation("seed = '1'"), Err(Failure::InvalidOptionType(OptionKey::Seed)));
}

#[test]
fn integers_in_other_notations_count_by_value() {
    assert_eq!(parse_invocation("seed = 0x10").unwrap().options.seed, Some(16));
    assert_eq!(parse_invocation("seed = 1_000").unwrap().options.seed, Some(1000));
    assert_eq!(parse_invocation("seed = 0b101").unwrap().options.seed, Some(5));
    assert_eq!(parse_invocation("seed = 20u8").unwrap().options.seed, Some(20));
}

#[test]
fn token_limit_is_positive() {
    assert_eq!(
        parse_invocation("max_completion_tokens = 0"),
        Err(Failure::InvalidOptionType(OptionKey::MaxCompletionTokens))
    );
    assert_eq!(
        parse_invocation("max_completion_tokens = 18446744073709551615")
            .unwrap()
            .options
            .max_completion_tokens,
        Some(u64::MAX)
    );
    assert_eq!(
        parse_invocation("max_completion_tokens = 18446744073709551616"),
        Err(Failure::InvalidOptionType(OptionKey::MaxCompletionTokens))
    );
    assert_eq!(
        parse_invocation("max_completion_tokens = \"many\""),
        Err(Failure::InvalidOptionType(OptionKey::MaxCompletionTokens))
    );
}

#[test]
fn tokens_parse_without_a_lexer() {
    let tokens = vec![ident("seed"), Token::Punct('='), number("7"), Token::Punct(';')];
    let invocation = parse_tokens(&tokens).unwrap();
    assert_eq!(invocation.options.seed, Some(7));
    assert_eq!(invocation.prompt, None);
}

#[test]
fn tokens_with_prompt() {
    let tokens = vec![
        ident("model"),
        Token::Punct('='),
        text("o1-preview"),
        Token::Punct(';'),
        text("Implement fib."),
    ];
    assert_eq!(
        parse_tokens(&tokens),
        Ok(Invocation {
            options: OptionSet {
                model: Some("o1-preview".to_string()),
                seed: None,
                max_completion_tokens: None,
            },
            prompt: Some("Implement fib.".to_string()),
        })
    );
}

#[test]
fn no_tokens_parse_to_nothing_set() {
    assert_eq!(parse_tokens(&Vec::new()), Ok(Invocation { options: unset(), prompt: None }));
}

#[test]
fn tokens_that_fit_nowhere_are_malformed() {
    assert_eq!(parse_tokens(&vec![Token::Other]), Err(Failure::MalformedInvocation));
    assert_eq!(parse_tokens(&vec![Token::Punct(';')]), Err(Failure::MalformedInvocation));
    assert_eq!(
        parse_tokens(&vec![ident("seed"), Token::Punct(':'), number("1")]),
        Err(Failure::MalformedInvocation)
    );
    assert_eq!(
        parse_tokens(&vec![ident("seed"), Token::Punct('='), number("1"), Token::Other]),
        Err(Failure::MalformedInvocation)
    );
}

#[test]
fn number_tokens_must_be_decimal_digits() {
    let bad = vec![ident("seed"), Token::Punct('='), number("12a")];
    assert_eq!(parse_tokens(&bad), Err(Failure::InvalidOptionType(OptionKey::Seed)));
    let empty = vec![ident("seed"), Token::Punct('='), number("")];
    assert_eq!(parse_tokens(&empty), Err(Failure::InvalidOptionType(OptionKey::Seed)));
    let other = vec![ident("seed"), Token::Punct('='), Token::Other];
    assert_eq!(parse_tokens(&other), Err(Failure::InvalidOptionType(OptionKey::Seed)));
}

#[test]
fn decimal_digits_are_read_exactly() {
    assert_eq!(parse_decimal("0"), Some(0));
    assert_eq!(parse_decimal("007"), Some(7));
    assert_eq!(parse_decimal("4096"), Some(4096));
    assert_eq!(parse_decimal("18446744073709551615"), Some(u64::MAX));
}

#[test]
fn decimal_digits_reject_the_rest() {
    assert_eq!(parse_decimal(""), None);
    assert_eq!(parse_decimal("18446744073709551616"), None);
    assert_eq!(parse_decimal("99999999999999999999999"), None);
    assert_eq!(parse_decimal("12x"), None);
    assert_eq!(parse_decimal("-1"), None);
    assert_eq!(parse_decimal("+1"), None);
    assert_eq!(parse_decimal(" 1"), None);
    assert_eq!(parse_decimal("１"), None);
}

#[test]
fn option_names_are_exact() {
    assert_eq!(option_key(&"model".to_string()), Some(OptionKey::Model));
    assert_eq!(option_key(&"seed".to_string()), Some(OptionKey::Seed));
    assert_eq!(
        option_key(&"max_completion_tokens".to_string()),
        Some(OptionKey::MaxCompletionTokens)
    );
    assert_eq!(option_key(&"Model".to_string()), None);
    assert_eq!(option_key(&"max_tokens".to_string()), None);
    assert_eq!(option_key(&"".to_string()), None);
}

#[test]
fn assigning_keeps_the_other_options() {
    let options = OptionSet { model: Some("m".to_string()), seed: None, max_completion_tokens: Some(9) };
    assert!(options.has(OptionKey::Model));
    assert!(!options.has(OptionKey::Seed));
    let options = options.assign(OptionKey::Seed, &number("3")).unwrap();
    assert_eq!(
        options,
        OptionSet { model: Some("m".to_string()), seed: Some(3), max_completion_tokens: Some(9) }
    );
    assert_eq!(OptionSet::new(), unset());
}
