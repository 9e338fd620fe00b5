//! The ways in which handling an invocation can fail.

use vstd::prelude::*;
use vstd::string::StringExecFns;

verus! {

/// The options an invocation may set.
#[derive(Clone, Copy, Debug, PartialEq, Eq, Structural)]
pub enum OptionKey {
    Model,
    Seed,
    MaxCompletionTokens,
}

/// A failure reported by the generation service's client.
#[derive(Clone, Copy, Debug, PartialEq, Eq, Structural)]
pub enum ServiceFailure {
    /// No credential was configured; nothing was sent.
    MissingCredential,
    /// The service could not be reached.
    ServiceUnavailable,
    /// The service refused the credential.
    AuthenticationFailure,
    /// The service answered, but not with success.
    ServiceError,
}

/// Why an invocation was not replaced by generated code.
#[derive(Clone, Debug, PartialEq, Eq)]
pub enum Failure {
    /// The arguments are not a list of assignments with an optional prompt.
    MalformedInvocation,
    /// An assignment names an option that does not exist; holds the name.
    UnknownOption(String),
    /// An option is assigned twice.
    DuplicateOption(OptionKey),
    /// An option is assigned a value that is not of its type.
    InvalidOptionType(OptionKey),
    /// The enclosing file could not be found or read.
    SourceUnavailable,
    /// The generation service's client failed.
    Service(ServiceFailure),
    /// The cache could not be read or written.
    CacheIoFailure,
    /// The generated text is not well-formed code; holds the text.
    GenerationParseFailure(String),
}

/// What a `Failure` is in contracts.
pub enum FailureView {
    MalformedInvocation,
    UnknownOption(Seq<char>),
    DuplicateOption(OptionKey),
    InvalidOptionType(OptionKey),
    SourceUnavailable,
    Service(ServiceFailure),
    CacheIoFailure,
    GenerationParseFailure(Seq<char>),
}

impl View for Failure {
    type V = FailureView;

    open spec fn view(&self) -> FailureView {
        match *self {
            Failure::MalformedInvocation => FailureView::MalformedInvocation,
            Failure::UnknownOption(name) => FailureView::UnknownOption(name@),
            Failure::DuplicateOption(key) => FailureView::DuplicateOption(key),
            Failure::InvalidOptionType(key) => FailureView::InvalidOptionType(key),
            Failure::SourceUnavailable => FailureView::SourceUnavailable,
            Failure::Service(failure) => FailureView::Service(failure),
            Failure::CacheIoFailure => FailureView::CacheIoFailure,
            Failure::GenerationParseFailure(text) => FailureView::GenerationParseFailure(text@),
        }
    }
}

/// The name by which an invocation assigns an option.
pub open spec fn key_name(key: OptionKey) -> Seq<char> {
    match key {
        OptionKey::Model => "model"@,
        OptionKey::Seed => "seed"@,
        OptionKey::MaxCompletionTokens => "max_completion_tokens"@,
    }
}

/// What kind of value an option takes, in words.
pub open spec fn key_expects(key: OptionKey) -> Seq<char> {
    match key {
        OptionKey::Model => "a string literal"@,
        OptionKey::Seed => "an integer literal of at most 9223372036854775807"@,
        OptionKey::MaxCompletionTokens => "an integer literal of at least 1"@,
    }
}

/// The failure of a response with the HTTP status `status`: none for the
/// statuses 200 to 299, a refused credential for 401 and 403, and a service
/// error for every other status.
pub open spec fn status_failure(status: u16) -> Option<ServiceFailure> {
    if 200 <= status <= 299 {
        None
    } else if status == 401 || status == 403 {
        Some(ServiceFailure::AuthenticationFailure)
    } else {
        Some(ServiceFailure::ServiceError)
    }
}

/// What a service failure says in a diagnostic.
pub open spec fn service_message_text(failure: ServiceFailure) -> Seq<char> {
    match failure {
        ServiceFailure::MissingCredential => "no credential for the generation service is set"@,
        ServiceFailure::ServiceUnavailable => "the generation service could not be reached"@,
        ServiceFailure::AuthenticationFailure => "the generation service refused the credential"@,
        ServiceFailure::ServiceError => "the generation service answered with an error"@,
    }
}

/// What a failure says in the diagnostic at the invocation.
pub open spec fn message_text(failure: FailureView) -> Seq<char> {
    match failure {
        FailureView::MalformedInvocation => "expected `key = value` assignments separated by `;` and then an optional prompt"@,
        FailureView::UnknownOption(name) => "unknown option `"@ + name + "`"@,
        FailureView::DuplicateOption(key) => "option `"@ + key_name(key) + "` is set twice"@,
        FailureView::InvalidOptionType(key) => "option `"@ + key_name(key) + "` takes "@
            + key_expects(key),
        FailureView::SourceUnavailable => "the file that holds the invocation could not be read"@,
        FailureView::Service(failure) => service_message_text(failure),
        FailureView::CacheIoFailure => "the cache could not be read or written"@,
        FailureView::GenerationParseFailure(text) => "the generated text is not valid code:\n"@
            + text,
    }
}

impl OptionKey {
    /// The name by which an invocation assigns this option.
    pub fn name(self) -> (name: &'static str)
        ensures
            name@ == key_name(self),
    {
        match self {
            OptionKey::Model => "model",
            OptionKey::Seed => "seed",
            OptionKey::MaxCompletionTokens => "max_completion_tokens",
        }
    }

    /// What kind of value this option takes, in words.
    pub fn expects(self) -> (words: &'static str)
        ensures
            words@ == key_expects(self),
    {
        match self {
            OptionKey::Model => "a string literal",
            OptionKey::Seed => "an integer literal of at most 9223372036854775807",
            OptionKey::MaxCompletionTokens => "an integer literal of at least 1",
        }
    }
}

impl ServiceFailure {
    /// The failure of a response with the HTTP status `status`, if it is one.
    pub fn of_status(status: u16) -> (failure: Option<ServiceFailure>)
        ensures
            failure == status_failure(status),
    {
        if 200 <= status && status <= 299 {
            None
        } else if status == 401 || status == 403 {
            Some(ServiceFailure::AuthenticationFailure)
        } else {
            Some(ServiceFailure::ServiceError)
        }
    }

    /// What this failure says in a diagnostic.
    pub fn message(self) -> (message: &'static str)
        ensures
            message@ == service_message_text(self),
    {
        match self {
            ServiceFailure::MissingCredential => "no credential for the generation service is set",
            ServiceFailure::ServiceUnavailable => "the generation service could not be reached",
            ServiceFailure::AuthenticationFailure => "the generation service refused the credential",
            ServiceFailure::ServiceError => "the generation service answered with an error",
        }
    }
}

impl Failure {
    /// What this failure says in the diagnostic at the invocation.
    pub fn message(&self) -> (message: String)
        ensures
            message@ == message_text(self@),
    {
        match self {
            Failure::MalformedInvocation => String::from_str(
                "expected `key = value` assignments separated by `;` and then an optional prompt",
            ),
            Failure::UnknownOption(name) => {
                let mut message = String::from_str("unknown option `");
                message.append(name.as_str());
                message.append("`");
                message
            },
            Failure::DuplicateOption(key) => {
                let mut message = String::from_str("option `");
                message.append(key.name());
                message.append("` is set twice");
                message
            },
            Failure::InvalidOptionType(key) => {
                let mut message = String::from_str("option `");
                message.append(key.name());
                message.append("` takes ");
                message.append(key.expects());
                message
            },
            Failure::SourceUnavailable => String::from_str(
                "the file that holds the invocation could not be read",
            ),
            Failure::Service(failure) => String::from_str(failure.message()),
            Failure::CacheIoFailure => String::from_str("the cache could not be read or written"),
            Failure::GenerationParseFailure(text) => {
                let mut message = String::from_str("the generated text is not valid code:\n");
                message.append(text.as_str());
                message
            },
        }
    }
}

} // verus!
