//! Reading an invocation's arguments: a list of `key = value` assignments
//! separated by semicolons, with an optional prompt in last place.

use crate::cache_key::SEED_MAX;
use crate::error::{key_name, Failure, FailureView, OptionKey};
use crate::token::{lex, shapes, tokens_of, Token, TokenShape};
use vstd::prelude::*;
use vstd::string::{StrSliceExecFns, StringExecFns};

verus! {

/// The options of one invocation. An option that was not assigned is `None`.
#[derive(Clone, Debug, PartialEq, Eq)]
pub struct OptionSet {
    /// Name of the model that is to generate the code.
    pub model: Option<String>,
    /// Seed for the generation; never above `SEED_MAX`.
    pub seed: Option<u64>,
    /// Upper limit on the length of the answer; never zero.
    pub max_completion_tokens: Option<u64>,
}

/// What an `OptionSet` is in contracts.
pub struct OptionSetView {
    pub model: Option<Seq<char>>,
    pub seed: Option<u64>,
    pub max_completion_tokens: Option<u64>,
}

/// One parsed invocation: its options and its prompt.
#[derive(Clone, Debug, PartialEq, Eq)]
pub struct Invocation {
    pub options: OptionSet,
    pub prompt: Option<String>,
}

/// What an `Invocation` is in contracts.
pub struct InvocationView {
    pub options: OptionSetView,
    pub prompt: Option<Seq<char>>,
}

/// The characters of an optional text.
pub open spec fn text_of(text: Option<String>) -> Option<Seq<char>> {
    match text {
        Some(text) => Some(text@),
        None => None,
    }
}

impl View for OptionSet {
    type V = OptionSetView;

    open spec fn view(&self) -> OptionSetView {
        OptionSetView {
            model: text_of(self.model),
            seed: self.seed,
            max_completion_tokens: self.max_completion_tokens,
        }
    }
}

impl View for Invocation {
    type V = InvocationView;

    open spec fn view(&self) -> InvocationView {
        InvocationView { options: self.options@, prompt: text_of(self.prompt) }
    }
}

impl OptionSetView {
    /// The set in which no option is assigned.
    pub open spec fn unset() -> OptionSetView {
        OptionSetView { model: None, seed: None, max_completion_tokens: None }
    }

    /// Whether `key` has been assigned.
    pub open spec fn has(self, key: OptionKey) -> bool {
        match key {
            OptionKey::Model => self.model is Some,
            OptionKey::Seed => self.seed is Some,
            OptionKey::MaxCompletionTokens => self.max_completion_tokens is Some,
        }
    }

    /// Whether the values lie in their options' ranges.
    pub open spec fn in_range(self) -> bool {
        &&& self.seed matches Some(seed) ==> seed <= SEED_MAX
        &&& self.max_completion_tokens matches Some(limit) ==> limit >= 1
    }
}

/// The option that `name` names, if any.
pub open spec fn option_named(name: Seq<char>) -> Option<OptionKey> {
    if name == key_name(OptionKey::Model) {
        Some(OptionKey::Model)
    } else if name == key_name(OptionKey::Seed) {
        Some(OptionKey::Seed)
    } else if name == key_name(OptionKey::MaxCompletionTokens) {
        Some(OptionKey::MaxCompletionTokens)
    } else {
        None
    }
}

/// Every option is found under its own name.
pub proof fn lemma_every_option_is_named(key: OptionKey)
    ensures
        option_named(key_name(key)) == Some(key),
{
    reveal_strlit("model");
    reveal_strlit("seed");
    reveal_strlit("max_completion_tokens");
    assert("model"@.len() == 5);
    assert("seed"@.len() == 4);
    assert("max_completion_tokens"@.len() == 21);
}

/// Whether `c` is one of the ten decimal digits.
pub open spec fn is_digit(c: char) -> bool {
    '0' <= c <= '9'
}

/// The value of a decimal digit; zero for any other character.
pub open spec fn digit_value(c: char) -> nat {
    if is_digit(c) {
        (c as u32 - '0' as u32) as nat
    } else {
        0
    }
}

/// Whether `digits` is a non-empty run of decimal digits.
pub open spec fn is_decimal(digits: Seq<char>) -> bool {
    &&& digits.len() > 0
    &&& forall|i: int| 0 <= i < digits.len() ==> is_digit(#[trigger] digits[i])
}

/// The number that a run of decimal digits writes.
pub open spec fn number_of(digits: Seq<char>) -> nat
    decreases digits.len(),
{
    if digits.len() == 0 {
        0
    } else {
        number_of(digits.drop_last()) * 10 + digit_value(digits.last())
    }
}

/// The number that `value` gives to an integer option whose values run from
/// `least` to `most`: `value` must be an integer literal in that range.
pub open spec fn integer_in(value: TokenShape, least: nat, most: nat) -> Option<u64> {
    match value {
        TokenShape::Number(digits) => if is_decimal(digits) && least <= number_of(digits) <= most
            && most <= u64::MAX {
            Some(number_of(digits) as u64)
        } else {
            None
        },
        _ => None,
    }
}

/// The option set after `key` is assigned `value`, or the failure where
/// `value` is not of the option's type: `model` takes a string literal,
/// `seed` an integer literal up to `SEED_MAX`, `max_completion_tokens` an
/// integer literal from 1 up.
pub open spec fn assigned(options: OptionSetView, key: OptionKey, value: TokenShape) -> Result<
    OptionSetView,
    FailureView,
> {
    match key {
        OptionKey::Model => match value {
            TokenShape::Text(name) => Ok(OptionSetView { model: Some(name), ..options }),
            _ => Err(FailureView::InvalidOptionType(key)),
        },
        OptionKey::Seed => match integer_in(value, 0, SEED_MAX as nat) {
            Some(seed) => Ok(OptionSetView { seed: Some(seed), ..options }),
            None => Err(FailureView::InvalidOptionType(key)),
        },
        OptionKey::MaxCompletionTokens => match integer_in(value, 1, u64::MAX as nat) {
            Some(limit) => Ok(OptionSetView { max_completion_tokens: Some(limit), ..options }),
            None => Err(FailureView::InvalidOptionType(key)),
        },
    }
}

/// What the tokens from position `at` on parse to, with `options` assigned
/// so far. At each step the tokens left are one of:
/// - nothing: the invocation is complete, without a prompt;
/// - a string literal and nothing after it: the prompt;
/// - `name = value` followed by nothing, or by `;` and what is left then.
/// Anything else is malformed. Within an assignment the name is looked up
/// first, then checked against the options already assigned, then the value
/// is checked against the option's type.
pub open spec fn parse_from(tokens: Seq<TokenShape>, at: int, options: OptionSetView) -> Result<
    InvocationView,
    FailureView,
>
    decreases tokens.len() - at,
{
    if at < 0 || at >= tokens.len() {
        Ok(InvocationView { options, prompt: None })
    } else {
        match tokens[at] {
            TokenShape::Text(prompt) => if at + 1 == tokens.len() {
                Ok(InvocationView { options, prompt: Some(prompt) })
            } else {
                Err(FailureView::MalformedInvocation)
            },
            TokenShape::Ident(name) => if at + 1 >= tokens.len() || tokens[at + 1]
                != TokenShape::Punct('=') {
                Err(FailureView::MalformedInvocation)
            } else {
                match option_named(name) {
                    None => Err(FailureView::UnknownOption(name)),
                    Some(key) => if options.has(key) {
                        Err(FailureView::DuplicateOption(key))
                    } else if at + 2 >= tokens.len() {
                        Err(FailureView::MalformedInvocation)
                    } else {
                        match assigned(options, key, tokens[at + 2]) {
                            Err(failure) => Err(failure),
                            Ok(next) => if at + 3 == tokens.len() {
                                Ok(InvocationView { options: next, prompt: None })
                            } else if tokens[at + 3] != TokenShape::Punct(';') {
                                Err(FailureView::MalformedInvocation)
                            } else {
                                parse_from(tokens, at + 4, next)
                            },
                        }
                    },
                }
            },
            _ => Err(FailureView::MalformedInvocation),
        }
    }
}

/// What a run of tokens parses to.
pub open spec fn parsed_tokens(tokens: Seq<TokenShape>) -> Result<InvocationView, FailureView> {
    parse_from(tokens, 0, OptionSetView::unset())
}

/// What the text of an invocation's arguments parses to: text that does not
/// split into tokens is malformed, other text parses as its tokens do.
pub open spec fn parsed_text(text: Seq<char>) -> Result<InvocationView, FailureView> {
    match tokens_of(text) {
        Some(tokens) => parsed_tokens(tokens),
        None => Err(FailureView::MalformedInvocation),
    }
}

/// The outcome of parsing, as contracts see it.
pub open spec fn parse_outcome(outcome: Result<Invocation, Failure>) -> Result<
    InvocationView,
    FailureView,
> {
    match outcome {
        Ok(invocation) => Ok(invocation@),
        Err(failure) => Err(failure@),
    }
}

/// The outcome of an assignment, as contracts see it.
pub open spec fn assign_outcome(outcome: Result<OptionSet, Failure>) -> Result<
    OptionSetView,
    FailureView,
> {
    match outcome {
        Ok(options) => Ok(options@),
        Err(failure) => Err(failure@),
    }
}

/// A longer run of digits writes a number at least as large as any run it
/// starts with.
pub proof fn lemma_number_grows(digits: Seq<char>, length: int)
    requires
        0 <= length <= digits.len(),
    ensures
        number_of(digits.take(length)) <= number_of(digits),
    decreases digits.len(),
{
    if length == digits.len() {
        assert(digits.take(length) =~= digits);
    } else {
        lemma_number_grows(digits.drop_last(), length);
        assert(digits.drop_last().take(length) =~= digits.take(length));
    }
}

/// Whether `text` and `other` hold the same characters.
fn same_text(text: &String, other: &str) -> (same: bool)
    ensures
        same == (text@ == other@),
{
    let other = String::from_str(other);
    *text == other
}

/// The option that `name` names, if any.
pub fn option_key(name: &String) -> (key: Option<OptionKey>)
    ensures
        key == option_named(name@),
{
    if same_text(name, OptionKey::Model.name()) {
        Some(OptionKey::Model)
    } else if same_text(name, OptionKey::Seed.name()) {
        Some(OptionKey::Seed)
    } else if same_text(name, OptionKey::MaxCompletionTokens.name()) {
        Some(OptionKey::MaxCompletionTokens)
    } else {
        None
    }
}

/// Reads a run of decimal digits as a number. `None` where `digits` is empty,
/// holds another character, or writes a number above `u64::MAX`.
pub fn parse_decimal(digits: &str) -> (value: Option<u64>)
    ensures
        value is Some <==> is_decimal(digits@) && number_of(digits@) <= u64::MAX,
        value matches Some(number) ==> number == number_of(digits@),
{
    let length = digits.unicode_len();
    if length == 0 {
        return None;
    }
    let mut number: u64 = 0;
    let mut index: usize = 0;
    while index < length
        invariant
            length == digits@.len(),
            index <= length,
            number == number_of(digits@.take(index as int)),
            forall|i: int| 0 <= i < index ==> is_digit(#[trigger] digits@[i]),
        decreases length - index,
    {
        let c = digits.get_char(index);
        proof {
            let upto = digits@.take(index + 1);
            assert(upto.drop_last() =~= digits@.take(index as int));
            assert(upto.last() == c);
            lemma_number_grows(digits@, index + 1);
        }
        if c < '0' || c > '9' {
            return None;
        }
        let digit: u64 = (c as u32 - '0' as u32) as u64;
        if number > (u64::MAX - digit) / 10 {
            return None;
        }
        number = number * 10 + digit;
        index = index + 1;
    }
    proof {
        assert(digits@.take(length as int) =~= digits@);
    }
    Some(number)
}

/// The number `value` gives to an integer option with values from `least`
/// to `most`.
fn integer_between(value: &Token, least: u64, most: u64) -> (number: Option<u64>)
    ensures
        number == integer_in(value@, least as nat, most as nat),
{
    match value {
        Token::Number(digits) => match parse_decimal(digits.as_str()) {
            Some(number) => if least <= number && number <= most {
                Some(number)
            } else {
                None
            },
            None => None,
        },
        _ => None,
    }
}

impl OptionSet {
    /// The set in which no option is assigned.
    pub fn new() -> (options: OptionSet)
        ensures
            options@ == OptionSetView::unset(),
    {
        OptionSet { model: None, seed: None, max_completion_tokens: None }
    }

    /// Whether `key` has been assigned.
    pub fn has(&self, key: OptionKey) -> (set: bool)
        ensures
            set == self@.has(key),
    {
        match key {
            OptionKey::Model => self.model.is_some(),
            OptionKey::Seed => self.seed.is_some(),
            OptionKey::MaxCompletionTokens => self.max_completion_tokens.is_some(),
        }
    }

    /// Assigns `value` to `key`, or fails with `InvalidOptionType` where the
    /// value is not of the option's type.
    pub fn assign(self, key: OptionKey, value: &Token) -> (outcome: Result<OptionSet, Failure>)
        ensures
            assign_outcome(outcome) == assigned(self@, key, value@),
            self@.in_range() ==> (outcome matches Ok(options) ==> options@.in_range()),
    {
        match key {
            OptionKey::Model => match value {
                Token::Text(name) => Ok(
                    OptionSet {
                        model: Some(name.clone()),
                        seed: self.seed,
                        max_completion_tokens: self.max_completion_tokens,
                    },
                ),
                _ => Err(Failure::InvalidOptionType(key)),
            },
            OptionKey::Seed => match integer_between(value, 0, SEED_MAX) {
                Some(seed) => Ok(
                    OptionSet {
                        model: self.model,
                        seed: Some(seed),
                        max_completion_tokens: self.max_completion_tokens,
                    },
                ),
                None => Err(Failure::InvalidOptionType(key)),
            },
            OptionKey::MaxCompletionTokens => match integer_between(value, 1, u64::MAX) {
                Some(limit) => Ok(
                    OptionSet {
                        model: self.model,
                        seed: self.seed,
                        max_completion_tokens: Some(limit),
                    },
                ),
                None => Err(Failure::InvalidOptionType(key)),
            },
        }
    }
}

/// Whether `token` is the punctuation character `mark`.
fn is_mark(token: &Token, mark: char) -> (same: bool)
    ensures
        same == (token@ == TokenShape::Punct(mark)),
{
    match token {
        Token::Punct(found) => *found == mark,
        _ => false,
    }
}

/// Parses the tokens of an invocation's arguments.
pub fn parse_tokens(tokens: &Vec<Token>) -> (outcome: Result<Invocation, Failure>)
    ensures
        parse_outcome(outcome) == parsed_tokens(shapes(tokens@)),
        outcome matches Ok(invocation) ==> invocation.options@.in_range(),
{
    let ghost all = shapes(tokens@);
    let length = tokens.len();
    let mut options = OptionSet::new();
    let mut at: usize = 0;
    loop
        invariant
            all == shapes(tokens@),
            length == tokens@.len(),
            at <= length,
            options@.in_range(),
            parsed_tokens(all) == parse_from(all, at as int, options@),
        decreases length - at,
    {
        if at >= length {
            return Ok(Invocation { options, prompt: None });
        }
        match &tokens[at] {
            Token::Text(prompt) => {
                if at + 1 == length {
                    return Ok(Invocation { options, prompt: Some(prompt.clone()) });
                } else {
                    return Err(Failure::MalformedInvocation);
                }
            },
            Token::Ident(name) => {
                if at + 1 >= length || !is_mark(&tokens[at + 1], '=') {
                    return Err(Failure::MalformedInvocation);
                }
                let key = match option_key(name) {
                    Some(key) => key,
                    None => {
                        return Err(Failure::UnknownOption(name.clone()));
                    },
                };
                if options.has(key) {
                    return Err(Failure::DuplicateOption(key));
                }
                if at + 2 >= length {
                    return Err(Failure::MalformedInvocation);
                }
                options = match options.assign(key, &tokens[at + 2]) {
                    Ok(next) => next,
                    Err(failure) => {
                        return Err(failure);
                    },
                };
                if at + 3 == length {
                    return Ok(Invocation { options, prompt: None });
                }
                if !is_mark(&tokens[at + 3], ';') {
                    return Err(Failure::MalformedInvocation);
                }
                at = at + 4;
            },
            _ => {
                return Err(Failure::MalformedInvocation);
            },
        }
    }
}

/// Parses the text of an invocation's arguments.
pub fn parse_invocation(text: &str) -> (outcome: Result<Invocation, Failure>)
    ensures
        parse_outcome(outcome) == parsed_text(text@),
        outcome matches Ok(invocation) ==> invocation.options@.in_range(),
{
    match lex(text) {
        Some(tokens) => parse_tokens(&tokens),
        None => Err(Failure::MalformedInvocation),
    }
}

} // verus!
