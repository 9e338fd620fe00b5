//! The request that goes to the generation service.

use crate::cache_key::{default_seed, seed_of_digest, CacheKey, SEED_MAX};
use crate::invocation::{Invocation, InvocationView};
use vstd::prelude::*;
use vstd::string::StringExecFns;

verus! {

/// The model asked where the invocation names none.
pub const DEFAULT_MODEL: &'static str = "gpt-4o";

/// Who a message is from.
#[derive(Clone, Copy, Debug, PartialEq, Eq, Structural)]
pub enum Role {
    System,
    User,
}

/// One message of a request.
#[derive(Clone, Debug, PartialEq, Eq)]
pub struct Message {
    pub role: Role,
    pub content: String,
}

/// What a `Message` is in contracts.
pub struct MessageView {
    pub role: Role,
    pub content: Seq<char>,
}

/// A request to the generation service.
#[derive(Clone, Debug, PartialEq, Eq)]
pub struct GenerationRequest {
    pub messages: Vec<Message>,
    pub model: String,
    pub seed: u64,
    pub max_completion_tokens: Option<u64>,
}

/// What a `GenerationRequest` is in contracts.
pub struct GenerationRequestView {
    pub messages: Seq<MessageView>,
    pub model: Seq<char>,
    pub seed: u64,
    pub max_completion_tokens: Option<u64>,
}

impl View for Message {
    type V = MessageView;

    open spec fn view(&self) -> MessageView {
        MessageView { role: self.role, content: self.content@ }
    }
}

impl View for GenerationRequest {
    type V = GenerationRequestView;

    open spec fn view(&self) -> GenerationRequestView {
        GenerationRequestView {
            messages: Seq::new(self.messages@.len(), |i: int| self.messages@[i]@),
            model: self.model@,
            seed: self.seed,
            max_completion_tokens: self.max_completion_tokens,
        }
    }
}

/// The name under which the service knows a role.
pub open spec fn role_name(role: Role) -> Seq<char> {
    match role {
        Role::System => "system"@,
        Role::User => "user"@,
    }
}

/// What the user's message says: the enclosing file, and after it the
/// prompt where there is one.
pub open spec fn user_content(file: Seq<char>, prompt: Option<Seq<char>>) -> Seq<char> {
    match prompt {
        Some(prompt) => file + prompt,
        None => file,
    }
}

/// The request for an invocation in the file `file` whose key has the digest
/// `digest`: the system message, then the user's message; the model and the
/// seed as the invocation names them, or else the default model and the seed
/// that the digest gives; the limit only where the invocation names one.
pub open spec fn request_for(
    invocation: InvocationView,
    system: Seq<char>,
    file: Seq<char>,
    digest: u64,
) -> GenerationRequestView {
    GenerationRequestView {
        messages: seq![
            MessageView { role: Role::System, content: system },
            MessageView { role: Role::User, content: user_content(file, invocation.prompt) },
        ],
        model: match invocation.options.model {
            Some(model) => model,
            None => DEFAULT_MODEL@,
        },
        seed: match invocation.options.seed {
            Some(seed) => seed,
            None => seed_of_digest(digest),
        },
        max_completion_tokens: invocation.options.max_completion_tokens,
    }
}

impl Role {
    /// The name under which the service knows this role.
    pub fn name(self) -> (name: &'static str)
        ensures
            name@ == role_name(self),
    {
        match self {
            Role::System => "system",
            Role::User => "user",
        }
    }
}

/// Builds the request for `invocation`, found in the file `file` and keyed
/// by `key`, with `system` as the system message.
pub fn build_request(invocation: &Invocation, system: String, file: &str, key: CacheKey) -> (request:
    GenerationRequest)
    ensures
        request@ == request_for(invocation@, system@, file@, key.digest),
        invocation@.options.in_range() ==> request.seed <= SEED_MAX,
{
    let mut content = String::from_str(file);
    match &invocation.prompt {
        Some(prompt) => {
            content.append(prompt.as_str());
        },
        None => {},
    }
    let model = match &invocation.options.model {
        Some(model) => model.clone(),
        None => String::from_str(DEFAULT_MODEL),
    };
    let seed = match invocation.options.seed {
        Some(seed) => seed,
        None => default_seed(key),
    };
    let mut messages: Vec<Message> = Vec::new();
    messages.push(Message { role: Role::System, content: system });
    messages.push(Message { role: Role::User, content });
    let request = GenerationRequest {
        messages,
        model,
        seed,
        max_completion_tokens: invocation.options.max_completion_tokens,
    };
    assert(request@.messages =~= request_for(
        invocation@,
        system@,
        file@,
        key.digest,
    ).messages);
    request
}

} // verus!
